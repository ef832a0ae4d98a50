//! The claims that a token carries: who the bearer is, when the token was
//! issued and when it expires, and how a claims record is written to and
//! read from the token's payload.

use crate::json::{
    distinct_keys, entry_views, json_object_members, json_object_text, member_views,
    read_json_object, write_json_object, written_members, JsonField, JsonFieldView,
};
use crate::text::{copy_opt, opt_text};
use crate::time::{
    current_time, format_rfc3339, is_clock_reading, rfc3339_instant, rfc3339_text, Timestamp,
    NANOS_PER_SEC, VALIDITY_SECS,
};
use vstd::prelude::*;

verus! {

/// One session's identity assertion.
#[derive(Clone, Debug)]
pub struct PasetoClaims {
    /// The bearer's stable identity.
    pub sub: String,
    /// The bearer's e-mail address, carried as it was given.
    pub email: Option<String>,
    /// The bearer's display name, carried as it was given.
    pub name: Option<String>,
    /// The instant of issue, as RFC 3339 text.
    pub iat: String,
    /// The instant of expiry, as RFC 3339 text.
    pub exp: String,
}

/// A claims record with its texts as sequences of characters.
pub struct ClaimsView {
    pub sub: Seq<char>,
    pub email: Option<Seq<char>>,
    pub name: Option<Seq<char>>,
    pub iat: Seq<char>,
    pub exp: Seq<char>,
}

impl View for PasetoClaims {
    type V = ClaimsView;

    open spec fn view(&self) -> ClaimsView {
        ClaimsView {
            sub: self.sub@,
            email: opt_text(self.email),
            name: opt_text(self.name),
            iat: self.iat@,
            exp: self.exp@,
        }
    }
}

/// The members of the payload's object, in the order in which they are
/// written.
pub open spec fn claims_entries(claims: ClaimsView) -> Seq<(Seq<char>, Option<Seq<char>>)> {
    seq![
        ("sub"@, Some(claims.sub)),
        ("email"@, claims.email),
        ("name"@, claims.name),
        ("iat"@, Some(claims.iat)),
        ("exp"@, Some(claims.exp)),
    ]
}

/// The payload of a token that carries `claims`.
pub open spec fn claims_payload(claims: ClaimsView) -> Seq<u8> {
    json_object_text(claims_entries(claims))
}

/// The value of the first member at or after `from` whose key is `key`.
pub open spec fn member_from(
    members: Seq<(Seq<char>, JsonFieldView)>,
    key: Seq<char>,
    from: int,
) -> Option<JsonFieldView>
    decreases members.len() - from,
{
    if from < 0 || from >= members.len() {
        None
    } else if members[from].0 == key {
        Some(members[from].1)
    } else {
        member_from(members, key, from + 1)
    }
}

/// The value of the first member whose key is `key`.
pub open spec fn member(members: Seq<(Seq<char>, JsonFieldView)>, key: Seq<char>) -> Option<
    JsonFieldView,
> {
    member_from(members, key, 0)
}

/// A member that must be there and must be a string.
pub open spec fn required_text(members: Seq<(Seq<char>, JsonFieldView)>, key: Seq<char>) -> Option<
    Seq<char>,
> {
    match member(members, key) {
        Some(JsonFieldView::Text(s)) => Some(s),
        _ => None,
    }
}

/// A member that may be missing or `null`, and is a string otherwise: the
/// outer `None` says that it is neither.
pub open spec fn optional_text(members: Seq<(Seq<char>, JsonFieldView)>, key: Seq<char>) -> Option<
    Option<Seq<char>>,
> {
    match member(members, key) {
        None => Some(None),
        Some(JsonFieldView::Null) => Some(None),
        Some(JsonFieldView::Text(s)) => Some(Some(s)),
        Some(JsonFieldView::Other) => None,
    }
}

/// The claims record that the members of an object make up: `sub`, `iat`
/// and `exp` must be strings; `email` and `name` may be strings, `null` or
/// missing; members under other keys are passed over.
pub open spec fn claims_of_members(members: Seq<(Seq<char>, JsonFieldView)>) -> Option<ClaimsView> {
    match (
        required_text(members, "sub"@),
        optional_text(members, "email"@),
        optional_text(members, "name"@),
        required_text(members, "iat"@),
        required_text(members, "exp"@),
    ) {
        (Some(sub), Some(email), Some(name), Some(iat), Some(exp)) => Some(
            ClaimsView { sub, email, name, iat, exp },
        ),
        _ => None,
    }
}

/// The claims record that a payload holds, or `None` where the payload is
/// no JSON object or its members make up no claims record. Only an object
/// is a record: an array is none, whatever it holds. Of a key that occurs
/// twice in the payload, `serde_json` keeps the last value.
pub open spec fn payload_claims(payload: Seq<u8>) -> Option<ClaimsView> {
    match json_object_members(payload) {
        None => None,
        Some(members) => claims_of_members(members),
    }
}

/// The index of the first member whose key is `key`.
fn find_member(members: &Vec<(String, JsonField)>, key: &str) -> (found: Option<usize>)
    ensures
        match found {
            Some(i) => i < members@.len() && member(member_views(members@), key@) == Some(
                members@[i as int].1@,
            ),
            None => member(member_views(members@), key@) is None,
        },
{
    let wanted = String::from_str(key);
    let ghost views = member_views(members@);
    let mut i: usize = 0;
    while i < members.len()
        invariant
            i <= members@.len(),
            wanted@ == key@,
            views == member_views(members@),
            member(views, key@) == member_from(views, key@, i as int),
        decreases members@.len() - i,
    {
        if members[i].0 == wanted {
            return Some(i);
        }
        i += 1;
    }
    None
}

/// Reads a member that must be a string.
fn read_required(members: &Vec<(String, JsonField)>, key: &str) -> (text: Option<String>)
    ensures
        opt_text(text) == required_text(member_views(members@), key@),
{
    match find_member(members, key) {
        None => None,
        Some(i) => match &members[i].1 {
            JsonField::Text(s) => Some(s.clone()),
            _ => None,
        },
    }
}

/// Reads a member that may be missing, `null` or a string.
fn read_optional(members: &Vec<(String, JsonField)>, key: &str) -> (text: Option<Option<String>>)
    ensures
        match text {
            None => optional_text(member_views(members@), key@) is None,
            Some(t) => optional_text(member_views(members@), key@) == Some(opt_text(t)),
        },
{
    match find_member(members, key) {
        None => Some(None),
        Some(i) => match &members[i].1 {
            JsonField::Null => Some(None),
            JsonField::Text(s) => Some(Some(s.clone())),
            JsonField::Other => None,
        },
    }
}

/// The view of an optional claims record.
pub open spec fn opt_claims(claims: Option<PasetoClaims>) -> Option<ClaimsView> {
    match claims {
        None => None,
        Some(c) => Some(c@),
    }
}

/// Makes a claims record of the members of a JSON object.
pub fn claims_from_members(members: &Vec<(String, JsonField)>) -> (claims: Option<PasetoClaims>)
    ensures
        opt_claims(claims) == claims_of_members(member_views(members@)),
{
    let sub = read_required(members, "sub");
    let email = read_optional(members, "email");
    let name = read_optional(members, "name");
    let iat = read_required(members, "iat");
    let exp = read_required(members, "exp");
    match (sub, email, name, iat, exp) {
        (Some(sub), Some(email), Some(name), Some(iat), Some(exp)) => Some(
            PasetoClaims { sub, email, name, iat, exp },
        ),
        _ => None,
    }
}

/// Reads the claims record that a payload holds. The payload must be a
/// JSON object; an array of the five values is refused. A key that stands
/// twice in the payload counts with its last value.
pub fn decode_claims(payload: &[u8]) -> (claims: Option<PasetoClaims>)
    ensures
        opt_claims(claims) == payload_claims(payload@),
{
    match read_json_object(payload) {
        None => None,
        Some(members) => claims_from_members(&members),
    }
}

/// The five keys differ, and the members that are read back from a written
/// claims record make up that record again.
pub proof fn claims_members_round_trip(claims: ClaimsView)
    ensures
        distinct_keys(claims_entries(claims)),
        claims_of_members(written_members(claims_entries(claims))) == Some(claims),
{
    reveal_strlit("sub");
    reveal_strlit("email");
    reveal_strlit("name");
    reveal_strlit("iat");
    reveal_strlit("exp");
    let entries = claims_entries(claims);
    let members = written_members(entries);
    assert("sub"@.len() == 3 && "sub"@[0] == 's');
    assert("email"@.len() == 5 && "email"@[0] == 'e');
    assert("name"@.len() == 4 && "name"@[0] == 'n');
    assert("iat"@.len() == 3 && "iat"@[0] == 'i');
    assert("exp"@.len() == 3 && "exp"@[0] == 'e');
    assert(members.len() == 5);
    assert(members[0].0 == "sub"@ && members[1].0 == "email"@ && members[2].0 == "name"@);
    assert(members[3].0 == "iat"@ && members[4].0 == "exp"@);
    reveal_with_fuel(member_from, 6);
    assert(member(members, "sub"@) == Some(JsonFieldView::Text(claims.sub)));
    assert(member(members, "email"@) == Some(members[1].1));
    assert(member(members, "name"@) == Some(members[2].1));
    assert(member(members, "iat"@) == Some(JsonFieldView::Text(claims.iat)));
    assert(member(members, "exp"@) == Some(JsonFieldView::Text(claims.exp)));
}

/// Writes a claims record as the payload of a token. Reading the payload
/// gives the record back.
pub fn encode_claims(claims: &PasetoClaims) -> (payload: Vec<u8>)
    ensures
        payload@ == claims_payload(claims@),
        payload@.len() > 0,
        payload_claims(payload@) == Some(claims@),
{
    let mut entries: Vec<(String, Option<String>)> = Vec::new();
    entries.push((String::from_str("sub"), Some(claims.sub.clone())));
    entries.push((String::from_str("email"), copy_opt(&claims.email)));
    entries.push((String::from_str("name"), copy_opt(&claims.name)));
    entries.push((String::from_str("iat"), Some(claims.iat.clone())));
    entries.push((String::from_str("exp"), Some(claims.exp.clone())));
    proof {
        assert(entry_views(entries@) =~= claims_entries(claims@));
        claims_members_round_trip(claims@);
    }
    write_json_object(&entries)
}

/// The instant at which claims issued at `now` expire: the validity window
/// later, to the same fraction of a second.
pub open spec fn expiry_of(now: Timestamp) -> Timestamp {
    Timestamp { secs: (now.secs + VALIDITY_SECS) as i64, nanos: now.nanos }
}

/// The claims for a bearer that are issued at `now`: `iat` is the text of
/// `now` and `exp` the text of the instant one validity window later.
/// There are none where either instant has no text.
pub open spec fn default_claims(
    sub: Seq<char>,
    email: Option<Seq<char>>,
    name: Option<Seq<char>>,
    now: Timestamp,
) -> Option<ClaimsView> {
    if now.secs + VALIDITY_SECS > i64::MAX {
        None
    } else {
        match (rfc3339_text(now), rfc3339_text(expiry_of(now))) {
            (Some(iat), Some(exp)) => Some(ClaimsView { sub, email, name, iat, exp }),
            _ => None,
        }
    }
}

/// What holds of claims that were issued at `now`: they are the default
/// claims of that instant, and unless `now` lies in a leap second their
/// issue reads as the start of the second of `now` and their expiry as the
/// start of the second one validity window later.
pub open spec fn issued_at(
    claims: ClaimsView,
    sub: Seq<char>,
    email: Option<Seq<char>>,
    name: Option<Seq<char>>,
    now: Timestamp,
) -> bool {
    &&& default_claims(sub, email, name, now) == Some(claims)
    &&& now.nanos < NANOS_PER_SEC ==> {
        &&& rfc3339_instant(claims.iat) == Some((Timestamp { secs: now.secs, nanos: 0 }))
        &&& rfc3339_instant(claims.exp) == Some(
            (Timestamp { secs: (now.secs + VALIDITY_SECS) as i64, nanos: 0 }),
        )
    }
}

/// What building claims at `now` gives: the claims issued at `now`, or
/// nothing where there are none.
pub open spec fn built_at(
    claims: Option<ClaimsView>,
    sub: Seq<char>,
    email: Option<Seq<char>>,
    name: Option<Seq<char>>,
    now: Timestamp,
) -> bool {
    match claims {
        Some(c) => issued_at(c, sub, email, name, now),
        None => default_claims(sub, email, name, now) is None,
    }
}

/// Builds the claims for a bearer as they are issued at `now`, valid for
/// one hour. Gives `None` where `now` or the instant an hour later lies
/// outside the dates that have a text.
pub fn claims_issued_at(
    sub: String,
    email: Option<String>,
    name: Option<String>,
    now: Timestamp,
) -> (claims: Option<PasetoClaims>)
    ensures
        built_at(opt_claims(claims), sub@, opt_text(email), opt_text(name), now),
{
    if now.secs > i64::MAX - VALIDITY_SECS {
        return None;
    }
    let expiry = Timestamp { secs: now.secs + VALIDITY_SECS, nanos: now.nanos };
    match (format_rfc3339(now), format_rfc3339(expiry)) {
        (Some(iat), Some(exp)) => Some(PasetoClaims { sub, email, name, iat, exp }),
        _ => None,
    }
}

/// Builds the claims for a bearer as they are issued now, by the system's
/// clock, valid for one hour. Whatever the clock says, its reading is an
/// ordinary second that has a text, and the outcome is that of
/// `claims_issued_at` for it: `None` only where the instant an hour later
/// lies outside the dates that have a text.
pub fn build_default_claims(sub: String, email: Option<String>, name: Option<String>) -> (claims:
    Option<PasetoClaims>)
    ensures
        exists|now: Timestamp|
            is_clock_reading(now) && #[trigger] built_at(
                opt_claims(claims),
                sub@,
                opt_text(email),
                opt_text(name),
                now,
            ),
{
    let now = current_time();
    claims_issued_at(sub, email, name, now)
}

} // verus!
