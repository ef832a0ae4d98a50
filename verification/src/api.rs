//! What the service answers: the envelope of every response, and the
//! bodies of the login and workflow endpoints.

use crate::claims::{built_at, claims_issued_at, opt_claims, PasetoClaims};
use crate::text::{copy_opt, opt_text};
use crate::time::Timestamp;
use crate::workflow::{node_views, workflow_output, workflow_report, NodeView, WorkflowNode};
use vstd::prelude::*;

verus! {

/// The envelope of a response: whether the request succeeded, the data it
/// gave, and a message for the reader.
pub struct ApiResponse<T> {
    pub success: bool,
    pub data: Option<T>,
    pub message: String,
}

/// The body of a workflow response: the steps, and what they report.
pub struct WorkflowResponse {
    pub nodes: Vec<WorkflowNode>,
    pub output: String,
}

/// What the identity provider says of the bearer of an access token.
pub struct GoogleUserInfo {
    pub sub: String,
    pub email: Option<String>,
    pub name: Option<String>,
    pub picture: Option<String>,
    pub given_name: Option<String>,
    pub family_name: Option<String>,
}

/// A request to exchange an access token of the identity provider for a
/// token of this service.
pub struct PasetoLoginRequest {
    pub access_token: String,
}

/// The body of a login response: the token, and the claims it carries.
pub struct PasetoLoginResponse {
    pub token: String,
    pub claims: PasetoClaims,
}

impl PasetoLoginRequest {
    /// Whether the request names an access token at all; one that names
    /// none is refused before the identity provider is asked.
    pub fn has_access_token(&self) -> (yes: bool)
        ensures
            yes == (self.access_token@.len() > 0),
    {
        !self.access_token.as_str().is_empty()
    }
}

impl GoogleUserInfo {
    /// The claims for this bearer as they are issued at `now`: subject,
    /// e-mail address and name are taken over as the identity provider
    /// gave them.
    pub fn claims_at(&self, now: Timestamp) -> (claims: Option<PasetoClaims>)
        ensures
            built_at(
                opt_claims(claims),
                self.sub@,
                opt_text(self.email),
                opt_text(self.name),
                now,
            ),
    {
        claims_issued_at(self.sub.clone(), copy_opt(&self.email), copy_opt(&self.name), now)
    }
}

/// The response to a verified access token: the bearer's identity.
pub fn google_verified(info: GoogleUserInfo) -> (response: ApiResponse<GoogleUserInfo>)
    ensures
        response.success,
        response.data == Some(info),
        response.message@ == "Google token verified"@,
{
    ApiResponse { success: true, data: Some(info), message: String::from_str("Google token verified") }
}

/// The response to a login: the token and the claims it was issued for.
pub fn login_response(token: String, claims: PasetoClaims) -> (response: ApiResponse<
    PasetoLoginResponse,
>)
    ensures
        response.success,
        response.data == Some(PasetoLoginResponse { token, claims }),
        response.message@ == "PASETO issued"@,
{
    ApiResponse {
        success: true,
        data: Some(PasetoLoginResponse { token, claims }),
        message: String::from_str("PASETO issued"),
    }
}

/// The response to a workflow that ran: its steps, and what they report.
pub fn workflow_completed(nodes: Vec<WorkflowNode>) -> (response: ApiResponse<WorkflowResponse>)
    ensures
        response.success,
        response.data is Some,
        response.data.unwrap().nodes == nodes,
        response.data.unwrap().output@ == workflow_report(node_views(nodes@)),
        response.message@ == "Workflow processing completed successfully"@,
{
    let output = workflow_output(&nodes);
    ApiResponse {
        success: true,
        data: Some(WorkflowResponse { nodes, output }),
        message: String::from_str("Workflow processing completed successfully"),
    }
}

/// The one step that stands for a workflow that could not run.
pub open spec fn error_step(id: Seq<char>, error: Seq<char>) -> NodeView {
    NodeView {
        id,
        node_type: "error"@,
        status: "error"@,
        title: "Processing Error"@,
        description: "Failed to process workflow with AI service"@,
        output: Some("Error: "@ + error),
    }
}

/// The response to a workflow that could not run: one step that shows the
/// error, and the error as the output.
pub fn workflow_failed(node_id: String, error: &str) -> (response: ApiResponse<WorkflowResponse>)
    ensures
        !response.success,
        response.data is Some,
        node_views(response.data.unwrap().nodes@) == seq![error_step(node_id@, error@)],
        response.data.unwrap().output@ == "Failed to process workflow: "@ + error@,
        response.message@ == "Workflow processing failed"@,
{
    let mut shown = String::from_str("Error: ");
    shown.append(error);
    let mut output = String::from_str("Failed to process workflow: ");
    output.append(error);
    let mut nodes: Vec<WorkflowNode> = Vec::new();
    nodes.push(
        WorkflowNode {
            id: node_id,
            node_type: String::from_str("error"),
            status: String::from_str("error"),
            title: String::from_str("Processing Error"),
            description: String::from_str("Failed to process workflow with AI service"),
            output: Some(shown),
        },
    );
    assert(node_views(nodes@) =~= seq![error_step(node_id@, error@)]);
    ApiResponse {
        success: false,
        data: Some(WorkflowResponse { nodes, output }),
        message: String::from_str("Workflow processing failed"),
    }
}

} // verus!
