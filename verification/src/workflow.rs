//! A workflow of agents that work one after the other, each on what the
//! one before it made: what each is asked, how far the workflow got, and
//! what it reports.

use crate::assistant::{message_views, ChatMessage, ChatMessageView};
use crate::text::opt_text;
use vstd::prelude::*;

verus! {

/// One agent's step of a workflow.
#[derive(Debug, Clone)]
pub struct WorkflowNode {
    pub id: String,
    pub node_type: String,
    pub status: String,
    pub title: String,
    pub description: String,
    pub output: Option<String>,
}

/// A step with its texts as sequences of characters.
pub struct NodeView {
    pub id: Seq<char>,
    pub node_type: Seq<char>,
    pub status: Seq<char>,
    pub title: Seq<char>,
    pub description: Seq<char>,
    pub output: Option<Seq<char>>,
}

impl View for WorkflowNode {
    type V = NodeView;

    open spec fn view(&self) -> NodeView {
        NodeView {
            id: self.id@,
            node_type: self.node_type@,
            status: self.status@,
            title: self.title@,
            description: self.description@,
            output: match self.output {
                None => None,
                Some(s) => Some(s@),
            },
        }
    }
}

/// The steps of a list, each by its view.
pub open spec fn node_views(nodes: Seq<WorkflowNode>) -> Seq<NodeView> {
    Seq::new(nodes.len(), |i: int| nodes[i]@)
}

/// A conversation of two messages: what the agent is, and what it is
/// asked.
pub open spec fn briefing(system: Seq<char>, user: Seq<char>) -> Seq<ChatMessageView> {
    seq![
        ChatMessageView { role: "system"@, content: system },
        ChatMessageView { role: "user"@, content: user },
    ]
}

/// What the coder is asked: the plan, then the request it was made for.
pub open spec fn coder_request(plan: Seq<char>, user_message: Seq<char>) -> Seq<char> {
    "Plan: "@ + plan + "\n\nOriginal request: "@ + user_message
}

/// What the agent that reviews is asked: the code to review.
pub open spec fn review_request(code: Seq<char>) -> Seq<char> {
    "Code to review: "@ + code
}

/// The conversation that asks the planner to break the request into steps.
pub open spec fn planner_briefing(user_message: Seq<char>) -> Seq<ChatMessageView> {
    briefing(
        "You are an AI planning agent. Break down the user's request into actionable steps for a coding workflow. Respond with a JSON array of steps, each with 'title', 'description', and 'agent_type' fields."@,
        user_message,
    )
}

/// The conversation that asks the coder to carry out the plan.
pub open spec fn coder_briefing(plan: Seq<char>, user_message: Seq<char>) -> Seq<ChatMessageView> {
    briefing(
        "You are a senior software engineer. Based on the planning output, write clean, production-ready code. Focus on best practices, error handling, and maintainability."@,
        coder_request(plan, user_message),
    )
}

/// The conversation that asks for a review of the code.
pub open spec fn review_briefing(code: Seq<char>) -> Seq<ChatMessageView> {
    briefing(
        "You are a code review expert. Analyze the provided code for improvements, security issues, and optimization opportunities. Provide constructive feedback."@,
        review_request(code),
    )
}

/// Builds a conversation of a system message and a user message.
fn brief(system: &str, user: String) -> (messages: Vec<ChatMessage>)
    ensures
        message_views(messages@) == briefing(system@, user@),
{
    let mut messages: Vec<ChatMessage> = Vec::new();
    messages.push(
        ChatMessage { role: String::from_str("system"), content: String::from_str(system) },
    );
    messages.push(ChatMessage { role: String::from_str("user"), content: user });
    assert(message_views(messages@) =~= briefing(system@, user@));
    messages
}

/// The conversation that asks the planner to break the request into steps.
pub fn planner_messages(user_message: &str) -> (messages: Vec<ChatMessage>)
    ensures
        message_views(messages@) == planner_briefing(user_message@),
{
    brief(
        "You are an AI planning agent. Break down the user's request into actionable steps for a coding workflow. Respond with a JSON array of steps, each with 'title', 'description', and 'agent_type' fields.",
        String::from_str(user_message),
    )
}

/// The conversation that asks the coder to carry out the plan.
pub fn coder_messages(plan: &str, user_message: &str) -> (messages: Vec<ChatMessage>)
    ensures
        message_views(messages@) == coder_briefing(plan@, user_message@),
{
    let mut request = String::from_str("Plan: ");
    request.append(plan);
    request.append("\n\nOriginal request: ");
    request.append(user_message);
    brief(
        "You are a senior software engineer. Based on the planning output, write clean, production-ready code. Focus on best practices, error handling, and maintainability.",
        request,
    )
}

/// The conversation that asks for a review of the code.
pub fn review_messages(code: &str) -> (messages: Vec<ChatMessage>)
    ensures
        message_views(messages@) == review_briefing(code@),
{
    let mut request = String::from_str("Code to review: ");
    request.append(code);
    brief(
        "You are a code review expert. Analyze the provided code for improvements, security issues, and optimization opportunities. Provide constructive feedback.",
        request,
    )
}

/// What one agent of a workflow is shown as.
#[derive(Debug, Clone)]
pub struct AgentRole {
    pub node_type: String,
    pub title: String,
    pub description: String,
}

/// A role with its texts as sequences of characters.
pub struct RoleView {
    pub node_type: Seq<char>,
    pub title: Seq<char>,
    pub description: Seq<char>,
}

impl View for AgentRole {
    type V = RoleView;

    open spec fn view(&self) -> RoleView {
        RoleView {
            node_type: self.node_type@,
            title: self.title@,
            description: self.description@,
        }
    }
}

/// The roles of a list, each by its view.
pub open spec fn role_views(roles: Seq<AgentRole>) -> Seq<RoleView> {
    Seq::new(roles.len(), |i: int| roles[i]@)
}

/// The texts of a list, each as a sequence of characters.
pub open spec fn text_views(texts: Seq<String>) -> Seq<Seq<char>> {
    Seq::new(texts.len(), |i: int| texts[i]@)
}

/// The status of the step at `index` when `done` agents have finished:
/// theirs are completed, the one at work is processing, and the ones
/// behind it are pending.
pub open spec fn step_status(index: int, done: int) -> Seq<char> {
    if index < done {
        "completed"@
    } else if index == done {
        "processing"@
    } else {
        "pending"@
    }
}

/// The step of the agent at `index`: its role under its id, with its
/// status, and with its output once it has finished.
pub open spec fn workflow_step(
    roles: Seq<RoleView>,
    ids: Seq<Seq<char>>,
    outputs: Seq<Seq<char>>,
    index: int,
) -> NodeView {
    NodeView {
        id: ids[index],
        node_type: roles[index].node_type,
        status: step_status(index, outputs.len() as int),
        title: roles[index].title,
        description: roles[index].description,
        output: if index < outputs.len() {
            Some(outputs[index])
        } else {
            None
        },
    }
}

/// The steps of a workflow whose first agents have finished with the
/// given outputs: one step for each role, in their order.
pub open spec fn workflow_steps(
    roles: Seq<RoleView>,
    ids: Seq<Seq<char>>,
    outputs: Seq<Seq<char>>,
) -> Seq<NodeView> {
    Seq::new(roles.len(), |i: int| workflow_step(roles, ids, outputs, i))
}

/// Builds the steps of a workflow: one for each role, under the id of the
/// same index, with the outputs of the agents that have finished.
pub fn workflow_nodes(roles: &Vec<AgentRole>, ids: &Vec<String>, outputs: &Vec<String>) -> (nodes:
    Vec<WorkflowNode>)
    requires
        ids@.len() == roles@.len(),
        outputs@.len() <= roles@.len(),
    ensures
        node_views(nodes@) == workflow_steps(
            role_views(roles@),
            text_views(ids@),
            text_views(outputs@),
        ),
{
    let ghost steps = workflow_steps(role_views(roles@), text_views(ids@), text_views(outputs@));
    let done = outputs.len();
    let mut nodes: Vec<WorkflowNode> = Vec::new();
    let mut i: usize = 0;
    while i < roles.len()
        invariant
            i <= roles@.len(),
            ids@.len() == roles@.len(),
            done == outputs@.len(),
            done <= roles@.len(),
            steps == workflow_steps(role_views(roles@), text_views(ids@), text_views(outputs@)),
            nodes@.len() == i,
            forall|j: int| 0 <= j < i ==> (#[trigger] nodes@[j])@ == steps[j],
        decreases roles@.len() - i,
    {
        let status = if i < done {
            String::from_str("completed")
        } else if i == done {
            String::from_str("processing")
        } else {
            String::from_str("pending")
        };
        let output = if i < done {
            Some(outputs[i].clone())
        } else {
            None
        };
        let node = WorkflowNode {
            id: ids[i].clone(),
            node_type: roles[i].node_type.clone(),
            status,
            title: roles[i].title.clone(),
            description: roles[i].description.clone(),
            output,
        };
        assert(node@ == steps[i as int]);
        nodes.push(node);
        i += 1;
    }
    assert(node_views(nodes@) =~= steps);
    nodes
}

/// The number of agents of a workflow: one plans, one writes the code,
/// and one reads the code once more.
pub const AGENTS: usize = 3;

/// The roles of the three agents, in the order in which they work. What
/// the last one is called is the operator's to say; what it does is fixed.
pub open spec fn workflow_role_views(last_type: Seq<char>, last_title: Seq<char>) -> Seq<RoleView> {
    seq![
        RoleView {
            node_type: "planner"@,
            title: "Planning Agent"@,
            description: "Analyzing request and creating execution plan"@,
        },
        RoleView {
            node_type: "coder"@,
            title: "Code Generator"@,
            description: "Implementing the planned solution"@,
        },
        RoleView {
            node_type: last_type,
            title: last_title,
            description: "Reviewing and optimizing the generated code"@,
        },
    ]
}

/// The roles of the three agents, the last under the given kind and
/// title.
pub fn workflow_roles(last_type: String, last_title: String) -> (roles: Vec<AgentRole>)
    ensures
        role_views(roles@) == workflow_role_views(last_type@, last_title@),
{
    let mut roles: Vec<AgentRole> = Vec::new();
    roles.push(
        AgentRole {
            node_type: String::from_str("planner"),
            title: String::from_str("Planning Agent"),
            description: String::from_str("Analyzing request and creating execution plan"),
        },
    );
    roles.push(
        AgentRole {
            node_type: String::from_str("coder"),
            title: String::from_str("Code Generator"),
            description: String::from_str("Implementing the planned solution"),
        },
    );
    roles.push(
        AgentRole {
            node_type: last_type,
            title: last_title,
            description: String::from_str("Reviewing and optimizing the generated code"),
        },
    );
    assert(role_views(roles@) =~= workflow_role_views(last_type@, last_title@));
    roles
}

/// What follows the reply of one agent.
#[derive(Debug)]
pub enum WorkflowStep {
    /// The next agent is asked this.
    Ask(Vec<ChatMessage>),
    /// The workflow ends with the outputs that were made.
    Finish,
    /// The workflow fails: there is not even a plan.
    Fail,
}

/// What follows a reply, with its texts as sequences of characters.
pub enum WorkflowStepView {
    Ask(Seq<ChatMessageView>),
    Finish,
    Fail,
}

impl View for WorkflowStep {
    type V = WorkflowStepView;

    open spec fn view(&self) -> WorkflowStepView {
        match self {
            WorkflowStep::Ask(messages) => WorkflowStepView::Ask(message_views(messages@)),
            WorkflowStep::Finish => WorkflowStepView::Finish,
            WorkflowStep::Fail => WorkflowStepView::Fail,
        }
    }
}

/// The outputs once an agent has replied: its reply behind those made
/// before, where it gave one.
pub open spec fn outputs_after(outputs: Seq<Seq<char>>, reply: Option<Seq<char>>) -> Seq<Seq<char>> {
    match reply {
        Some(text) => outputs.push(text),
        None => outputs,
    }
}

/// What follows the reply of the agent that worked on `outputs`. Without
/// a plan the workflow fails. With the plan the coder is asked, and with
/// the code the last agent. The workflow ends where the coder or the last
/// agent gives no reply, and once the last agent has replied.
pub open spec fn workflow_step_outcome(
    user_message: Seq<char>,
    outputs: Seq<Seq<char>>,
    reply: Option<Seq<char>>,
) -> WorkflowStepView {
    match reply {
        None => if outputs.len() == 0 {
            WorkflowStepView::Fail
        } else {
            WorkflowStepView::Finish
        },
        Some(text) => if outputs.len() == 0 {
            WorkflowStepView::Ask(coder_briefing(text, user_message))
        } else if outputs.len() == 1 {
            WorkflowStepView::Ask(review_briefing(text))
        } else {
            WorkflowStepView::Finish
        },
    }
}

/// Decides what follows the reply of the agent that was asked last, and
/// keeps its reply with the outputs. `reply` is `None` where the agent
/// gave none.
pub fn after_agent(user_message: &str, outputs: &mut Vec<String>, reply: Option<String>) -> (step:
    WorkflowStep)
    requires
        old(outputs)@.len() < AGENTS,
    ensures
        text_views(final(outputs)@) == outputs_after(text_views(old(outputs)@), opt_text(reply)),
        step@ == workflow_step_outcome(user_message@, text_views(old(outputs)@), opt_text(reply)),
{
    let done = outputs.len();
    match reply {
        None => {
            assert(text_views(outputs@) =~= text_views(old(outputs)@));
            if done == 0 {
                WorkflowStep::Fail
            } else {
                WorkflowStep::Finish
            }
        },
        Some(text) => {
            let step = if done == 0 {
                WorkflowStep::Ask(coder_messages(text.as_str(), user_message))
            } else if done == 1 {
                WorkflowStep::Ask(review_messages(text.as_str()))
            } else {
                WorkflowStep::Finish
            };
            outputs.push(text);
            assert(text_views(outputs@) =~= text_views(old(outputs)@).push(text@));
            step
        },
    }
}

/// A workflow whose plan is made shows three steps, the planner's first
/// and the coder's second; the planner's is completed and holds the plan.
pub proof fn workflow_shows_three_steps(
    last_type: Seq<char>,
    last_title: Seq<char>,
    ids: Seq<Seq<char>>,
    outputs: Seq<Seq<char>>,
)
    requires
        ids.len() == AGENTS,
        1 <= outputs.len() <= AGENTS,
    ensures
        workflow_steps(workflow_role_views(last_type, last_title), ids, outputs).len() == 3,
        workflow_steps(workflow_role_views(last_type, last_title), ids, outputs)[0].node_type
            == "planner"@,
        workflow_steps(workflow_role_views(last_type, last_title), ids, outputs)[0].status
            == "completed"@,
        workflow_steps(workflow_role_views(last_type, last_title), ids, outputs)[0].output == Some(
            outputs[0],
        ),
        workflow_steps(workflow_role_views(last_type, last_title), ids, outputs)[1].node_type
            == "coder"@,
        workflow_steps(workflow_role_views(last_type, last_title), ids, outputs)[2].node_type
            == last_type,
{
}

/// Whether a step is reported: it is completed and has an output.
pub open spec fn is_reported(node: NodeView) -> bool {
    node.status == "completed"@ && node.output is Some
}

/// The line that reports a step: its title, then its output.
pub open spec fn report_line(node: NodeView) -> Seq<char> {
    node.title + ": "@ + node.output.unwrap()
}

/// The lines of the reported steps, in the order of the steps.
pub open spec fn report_lines(nodes: Seq<NodeView>) -> Seq<Seq<char>>
    decreases nodes.len(),
{
    if nodes.len() == 0 {
        Seq::empty()
    } else if is_reported(nodes.last()) {
        report_lines(nodes.drop_last()).push(report_line(nodes.last()))
    } else {
        report_lines(nodes.drop_last())
    }
}

/// The lines with `separator` between each two of them.
pub open spec fn joined(lines: Seq<Seq<char>>, separator: Seq<char>) -> Seq<char>
    decreases lines.len(),
{
    if lines.len() == 0 {
        Seq::empty()
    } else if lines.len() == 1 {
        lines[0]
    } else {
        joined(lines.drop_last(), separator) + separator + lines.last()
    }
}

/// What a workflow reports: the lines of its reported steps, an empty line
/// between each two.
pub open spec fn workflow_report(nodes: Seq<NodeView>) -> Seq<char> {
    joined(report_lines(nodes), "\n\n"@)
}

/// Writes what a workflow reports: for each completed step that has an
/// output, its title and the output, with an empty line between steps.
pub fn workflow_output(nodes: &Vec<WorkflowNode>) -> (output: String)
    ensures
        output@ == workflow_report(node_views(nodes@)),
{
    let completed = String::from_str("completed");
    let ghost views = node_views(nodes@);
    let mut output = String::new();
    let mut any = false;
    let mut i: usize = 0;
    assert(views.take(0) =~= Seq::<NodeView>::empty());
    while i < nodes.len()
        invariant
            i <= nodes@.len(),
            completed@ == "completed"@,
            views == node_views(nodes@),
            output@ == workflow_report(views.take(i as int)),
            any == (report_lines(views.take(i as int)).len() > 0),
        decreases nodes@.len() - i,
    {
        let node = &nodes[i];
        let ghost before = views.take(i as int);
        let ghost lines = report_lines(before);
        proof {
            assert(views.take(i + 1).drop_last() =~= before);
            assert(views.take(i + 1).last() == node@);
        }
        if node.status == completed {
            match &node.output {
                None => {},
                Some(text) => {
                    if any {
                        output.append("\n\n");
                    }
                    output.append(node.title.as_str());
                    output.append(": ");
                    output.append(text.as_str());
                    proof {
                        let line = report_line(node@);
                        assert(line == node.title@ + ": "@ + text@);
                        assert(lines.push(line).drop_last() =~= lines);
                        if lines.len() == 0 {
                            assert(output@ =~= line);
                        } else {
                            assert(output@ =~= joined(lines, "\n\n"@) + "\n\n"@ + line);
                        }
                    }
                    any = true;
                },
            }
        }
        i += 1;
    }
    assert(views.take(i as int) =~= views);
    output
}

} // verus!
