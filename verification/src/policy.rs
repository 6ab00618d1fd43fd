//! The policy-document builder: accumulates (effect, method, resource) grants
//! scoped to a fixed gateway context and renders them as an ordered policy
//! document.

use vstd::prelude::*;
use vstd::string::StrSliceExecFns;
use vstd::string::StringExecFns;

verus! {

/// Whether a statement allows or denies invocation of the resource it names.
#[derive(Clone, Copy, PartialEq, Eq, Structural, Debug)]
pub enum Effect {
    Allow,
    Deny,
}

/// An HTTP verb, or the wildcard standing for every verb.
#[derive(Clone, Copy, PartialEq, Eq, Structural, Debug)]
pub enum Method {
    Get,
    Post,
    Put,
    Delete,
    Patch,
    Head,
    Options,
    All,
}

/// The fixed version string every rendered policy document carries.
pub open spec fn policy_version() -> Seq<char> {
    "2012-10-17"@
}

/// The single action every statement grants or denies.
pub open spec fn invoke_action() -> Seq<char> {
    "execute-api:Invoke"@
}

/// The token a method contributes to a resource ARN: the uppercase verb, or
/// `*` for the wildcard method.
pub open spec fn method_token(m: Method) -> Seq<char> {
    match m {
        Method::Get => "GET"@,
        Method::Post => "POST"@,
        Method::Put => "PUT"@,
        Method::Delete => "DELETE"@,
        Method::Patch => "PATCH"@,
        Method::Head => "HEAD"@,
        Method::Options => "OPTIONS"@,
        Method::All => "*"@,
    }
}

impl Method {
    /// The executable serialization table; it agrees with `method_token`.
    pub fn token(&self) -> (r: &'static str)
        ensures
            r@ == method_token(*self),
    {
        match self {
            Method::Get => "GET",
            Method::Post => "POST",
            Method::Put => "PUT",
            Method::Delete => "DELETE",
            Method::Patch => "PATCH",
            Method::Head => "HEAD",
            Method::Options => "OPTIONS",
            Method::All => "*",
        }
    }
}

/// A resource path with exactly one leading slash removed, when one is
/// present; a second leading slash is kept.
pub open spec fn trim_one_leading_slash(path: Seq<char>) -> Seq<char> {
    if path.len() > 0 && path[0] == '/' {
        path.subrange(1, path.len() as int)
    } else {
        path
    }
}

/// The resource ARN a grant for method `m` on `path` produces under the given
/// context:
/// `arn:aws:execute-api:{region}:{account_id}:{api_id}/{stage}/{token}/{path}`.
pub open spec fn resource_arn(
    region: Seq<char>,
    account_id: Seq<char>,
    api_id: Seq<char>,
    stage: Seq<char>,
    m: Method,
    path: Seq<char>,
) -> Seq<char> {
    "arn:aws:execute-api:"@ + region + ":"@ + account_id + ":"@ + api_id + "/"@ + stage + "/"@
        + method_token(m) + "/"@ + trim_one_leading_slash(path)
}

/// The mathematical content of one statement.
pub ghost struct StatementModel {
    pub effect: Effect,
    pub actions: Seq<Seq<char>>,
    pub resources: Seq<Seq<char>>,
}

/// The statement one grant call appends: the fixed invoke action and a single
/// resource ARN built from the context, the method token and the trimmed path.
pub open spec fn grant_statement(
    region: Seq<char>,
    account_id: Seq<char>,
    api_id: Seq<char>,
    stage: Seq<char>,
    effect: Effect,
    m: Method,
    path: Seq<char>,
) -> StatementModel {
    StatementModel {
        effect: effect,
        actions: seq![invoke_action()],
        resources: seq![resource_arn(region, account_id, api_id, stage, m, path)],
    }
}

/// One authorization rule of the rendered document.
pub struct Statement {
    pub effect: Effect,
    pub action: Vec<String>,
    pub resource: Vec<String>,
}

impl View for Statement {
    type V = StatementModel;

    open spec fn view(&self) -> StatementModel {
        StatementModel {
            effect: self.effect,
            actions: self.action@.map_values(|a: String| a@),
            resources: self.resource@.map_values(|r: String| r@),
        }
    }
}

/// The mathematical content of a policy document.
pub ghost struct PolicyModel {
    pub version: Seq<char>,
    pub statements: Seq<StatementModel>,
}

/// The immutable policy document that `build` returns.
pub struct PolicyDocument {
    pub version: String,
    pub statement: Vec<Statement>,
}

impl View for PolicyDocument {
    type V = PolicyModel;

    open spec fn view(&self) -> PolicyModel {
        PolicyModel {
            version: self.version@,
            statements: self.statement@.map_values(|s: Statement| s@),
        }
    }
}

/// The context a builder is scoped to, with the statements granted so far in
/// call order.
pub ghost struct BuilderModel {
    pub region: Seq<char>,
    pub account_id: Seq<char>,
    pub api_id: Seq<char>,
    pub stage: Seq<char>,
    pub statements: Seq<StatementModel>,
}

/// Accumulates grants scoped to one (region, account, api, stage) context and
/// renders them into a policy document. `build` consumes the builder, so no
/// grant can follow it.
pub struct APIGatewayPolicyBuilder {
    region: String,
    aws_account_id: String,
    rest_api_id: String,
    stage: String,
    policy: PolicyDocument,
}

impl View for APIGatewayPolicyBuilder {
    type V = BuilderModel;

    closed spec fn view(&self) -> BuilderModel {
        BuilderModel {
            region: self.region@,
            account_id: self.aws_account_id@,
            api_id: self.rest_api_id@,
            stage: self.stage@,
            statements: self.policy@.statements,
        }
    }
}

impl APIGatewayPolicyBuilder {
    /// The builder carries the fixed version string for the document it will
    /// render; `new` establishes this and every operation preserves it.
    pub closed spec fn wf(&self) -> bool {
        self.policy@.version == policy_version()
    }

    /// A builder scoped to the given context, with no statements yet.
    pub fn new(region: &str, account_id: &str, api_id: &str, stage: &str) -> (b: Self)
        ensures
            b.wf(),
            b@.region == region@,
            b@.account_id == account_id@,
            b@.api_id == api_id@,
            b@.stage == stage@,
            b@.statements == Seq::<StatementModel>::empty(),
    {
        let b = APIGatewayPolicyBuilder {
            region: region.to_owned(),
            aws_account_id: account_id.to_owned(),
            rest_api_id: api_id.to_owned(),
            stage: stage.to_owned(),
            policy: PolicyDocument { version: "2012-10-17".to_owned(), statement: Vec::new() },
        };
        proof {
            assert(b@.statements =~= Seq::<StatementModel>::empty());
        }
        b
    }

    /// Appends one grant: the statement sequence grows by exactly the grant's
    /// statement, at the end, and the context never changes. Grants are never
    /// merged or deduplicated.
    pub fn add_method(self, effect: Effect, method: Method, resource: &str) -> (b: Self)
        requires
            self.wf(),
        ensures
            b.wf(),
            b@.region == self@.region,
            b@.account_id == self@.account_id,
            b@.api_id == self@.api_id,
            b@.stage == self@.stage,
            b@.statements == self@.statements.push(
                grant_statement(
                    self@.region,
                    self@.account_id,
                    self@.api_id,
                    self@.stage,
                    effect,
                    method,
                    resource@,
                ),
            ),
    {
        let ghost pre = self@;
        let mut arn = String::new();
        arn.append("arn:aws:execute-api:");
        arn.append(self.region.as_str());
        arn.append(":");
        arn.append(self.aws_account_id.as_str());
        arn.append(":");
        arn.append(self.rest_api_id.as_str());
        arn.append("/");
        arn.append(self.stage.as_str());
        arn.append("/");
        arn.append(method.token());
        arn.append("/");
        let n = resource.unicode_len();
        let trimmed = if n > 0 && resource.get_char(0) == '/' {
            resource.substring_char(1, n)
        } else {
            resource
        };
        arn.append(trimmed);
        proof {
            assert(arn@ =~= resource_arn(
                pre.region,
                pre.account_id,
                pre.api_id,
                pre.stage,
                method,
                resource@,
            ));
        }

        let mut action: Vec<String> = Vec::new();
        action.push("execute-api:Invoke".to_owned());
        let mut resource_list: Vec<String> = Vec::new();
        resource_list.push(arn);
        let stmt = Statement { effect: effect, action: action, resource: resource_list };
        proof {
            assert(stmt@.actions =~= seq![invoke_action()]);
            assert(stmt@.resources =~= seq![
                resource_arn(pre.region, pre.account_id, pre.api_id, pre.stage, method, resource@),
            ]);
        }

        let mut b = self;
        b.policy.statement.push(stmt);
        proof {
            assert(b@.statements =~= pre.statements.push(
                grant_statement(
                    pre.region,
                    pre.account_id,
                    pre.api_id,
                    pre.stage,
                    effect,
                    method,
                    resource@,
                ),
            ));
        }
        b
    }

    /// Equivalent to `add_method(Allow, All, "*")`: one wildcard allow grant.
    pub fn allow_all_methods(self) -> (b: Self)
        requires
            self.wf(),
        ensures
            b.wf(),
            b@.region == self@.region,
            b@.account_id == self@.account_id,
            b@.api_id == self@.api_id,
            b@.stage == self@.stage,
            b@.statements == self@.statements.push(
                grant_statement(
                    self@.region,
                    self@.account_id,
                    self@.api_id,
                    self@.stage,
                    Effect::Allow,
                    Method::All,
                    "*"@,
                ),
            ),
    {
        self.add_method(Effect::Allow, Method::All, "*")
    }

    /// Equivalent to `add_method(Deny, All, "*")`: one wildcard deny grant.
    pub fn deny_all_methods(self) -> (b: Self)
        requires
            self.wf(),
        ensures
            b.wf(),
            b@.region == self@.region,
            b@.account_id == self@.account_id,
            b@.api_id == self@.api_id,
            b@.stage == self@.stage,
            b@.statements == self@.statements.push(
                grant_statement(
                    self@.region,
                    self@.account_id,
                    self@.api_id,
                    self@.stage,
                    Effect::Deny,
                    Method::All,
                    "*"@,
                ),
            ),
    {
        self.add_method(Effect::Deny, Method::All, "*")
    }

    /// Equivalent to `add_method(Allow, method, resource)`.
    pub fn allow_method(self, method: Method, resource: &str) -> (b: Self)
        requires
            self.wf(),
        ensures
            b.wf(),
            b@.region == self@.region,
            b@.account_id == self@.account_id,
            b@.api_id == self@.api_id,
            b@.stage == self@.stage,
            b@.statements == self@.statements.push(
                grant_statement(
                    self@.region,
                    self@.account_id,
                    self@.api_id,
                    self@.stage,
                    Effect::Allow,
                    method,
                    resource@,
                ),
            ),
    {
        self.add_method(Effect::Allow, method, resource)
    }

    /// Equivalent to `add_method(Deny, method, resource)`.
    pub fn deny_method(self, method: Method, resource: &str) -> (b: Self)
        requires
            self.wf(),
        ensures
            b.wf(),
            b@.region == self@.region,
            b@.account_id == self@.account_id,
            b@.api_id == self@.api_id,
            b@.stage == self@.stage,
            b@.statements == self@.statements.push(
                grant_statement(
                    self@.region,
                    self@.account_id,
                    self@.api_id,
                    self@.stage,
                    Effect::Deny,
                    method,
                    resource@,
                ),
            ),
    {
        self.add_method(Effect::Deny, method, resource)
    }

    /// Consumes the builder: the document carries the fixed version string
    /// whatever grants were made, and the statements exactly in grant order.
    pub fn build(self) -> (doc: PolicyDocument)
        requires
            self.wf(),
        ensures
            doc@.version == policy_version(),
            doc@.statements == self@.statements,
    {
        self.policy
    }
}

/// A grant appends at the end and leaves every earlier statement unchanged,
/// so statement order in a built document equals grant-call order.
pub proof fn lemma_grant_preserves_order(stmts: Seq<StatementModel>, g: StatementModel)
    ensures
        stmts.push(g).len() == stmts.len() + 1,
        forall|i: int| 0 <= i < stmts.len() ==> stmts.push(g)[i] == stmts[i],
        stmts.push(g)[stmts.len() as int] == g,
{
}

} // verus!
