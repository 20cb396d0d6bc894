//! The user-creation request: its fields, their rules, and the handler that
//! answers a request that met them.

use crate::app_error::{AppError, JsonRejection, Response};
use crate::rules::{
    demands_of, is_email, lemma_clean_iff_all_met, lemma_every_failure_reported,
    lemma_only_failures_reported, reports, Check, Demand, Rule,
};
use crate::validated_json::{violations, Validatable, ValidatedJson};
use vstd::prelude::*;

verus! {

/// The body of a request to create a user.
#[derive(Debug, Clone, PartialEq, Eq)]
pub struct UserAddRequest {
    pub username: String,
    pub email: String,
    pub password: String,
}

impl UserAddRequest {
    /// A user name has 3 to 30 characters.
    pub open spec fn username_rule() -> Rule {
        Rule::Length { min: 3, max: 30 }
    }

    /// The address has the form of an e-mail address.
    pub open spec fn email_rule() -> Rule {
        Rule::Email
    }

    /// A password has 6 to 100 characters.
    pub open spec fn password_rule() -> Rule {
        Rule::Length { min: 6, max: 100 }
    }

    /// Whether every field meets its rule.
    pub open spec fn is_valid(&self) -> bool {
        &&& Self::username_rule().holds(self.username@)
        &&& Self::email_rule().holds(self.email@)
        &&& Self::password_rule().holds(self.password@)
    }
}

impl Validatable for UserAddRequest {
    /// One rule for each field: the user name, the address, the password.
    open spec fn demands(&self) -> Seq<Demand> {
        seq![
            Demand {
                field: "username",
                text: self.username@,
                rule: Self::username_rule(),
                message: None,
            },
            Demand { field: "email", text: self.email@, rule: Self::email_rule(), message: None },
            Demand {
                field: "password",
                text: self.password@,
                rule: Self::password_rule(),
                message: None,
            },
        ]
    }

    fn checks(&self) -> (checks: Vec<Check<'_>>) {
        let checks = vec![
            Check {
                field: "username",
                text: self.username.as_str(),
                rule: Rule::Length { min: 3, max: 30 },
                message: None,
            },
            Check { field: "email", text: self.email.as_str(), rule: Rule::Email, message: None },
            Check {
                field: "password",
                text: self.password.as_str(),
                rule: Rule::Length { min: 6, max: 100 },
                message: None,
            },
        ];
        assert(demands_of(checks@) =~= self.demands());
        checks
    }
}

/// Answers a request whose payload met its rules: always with the fixed
/// confirmation.
pub fn create(_request: ValidatedJson<UserAddRequest>) -> (outcome: Result<&'static str, AppError>)
    ensures
        outcome == Ok::<&'static str, AppError>("User created successfully"),
{
    Ok("User created successfully")
}

/// The response to a request, given what parsing its body gave: the
/// extractor first, then the handler, and for a failure of either its
/// rendering.
pub fn respond(parsed: Result<UserAddRequest, JsonRejection>) -> (response: Response)
    ensures
        match parsed {
            Err(rejection) => response.status == 400 && response.body@ == rejection.body_text@,
            Ok(payload) => if payload.is_valid() {
                response.status == 200 && response.body@ == "User created successfully"@
            } else {
                response.status == 400 && response.body@ == "Validation error"@
            },
        },
{
    proof {
        if parsed is Ok {
            lemma_valid_iff_clean(parsed->Ok_0);
        }
    }
    match ValidatedJson::from_request(parsed) {
        Ok(request) => match create(request) {
            Ok(text) => Response { status: 200, body: text.to_owned() },
            Err(error) => error.into_response(),
        },
        Err(error) => error.into_response(),
    }
}

/// A request breaks no rule exactly when each of its fields meets its own.
pub proof fn lemma_valid_iff_clean(request: UserAddRequest)
    ensures
        request.is_valid() <==> violations(&request).len() == 0,
{
    let demands = request.demands();
    lemma_clean_iff_all_met(demands);
    if request.is_valid() {
        assert forall|i: int| 0 <= i < demands.len() implies (#[trigger] demands[i]).is_met() by {}
    } else {
        assert(!demands[0].is_met() || !demands[1].is_met() || !demands[2].is_met());
    }
}

/// Every field that does not meet its rule is reported, whatever the other
/// fields hold, and no field that meets its rule is.
pub proof fn lemma_reported_fields(request: UserAddRequest)
    ensures
        reports(violations(&request), "username"@) <==> !(3 <= request.username@.len() <= 30),
        reports(violations(&request), "email"@) <==> !is_email(request.email@),
        reports(violations(&request), "password"@) <==> !(6 <= request.password@.len() <= 100),
{
    reveal_strlit("username");
    reveal_strlit("email");
    reveal_strlit("password");
    assert("username"@[0] == 'u' && "password"@[0] == 'p');
    let demands = request.demands();
    let found = violations(&request);
    assert forall|i: int| 0 <= i < 3 && !(#[trigger] demands[i]).is_met() implies reports(
        found,
        demands[i].field@,
    ) by {
        lemma_every_failure_reported(demands, i);
        let k = choose|k: int| 0 <= k < found.len() && found[k] == demands[i].violation();
        assert(found[k].field@ == demands[i].field@);
    }
    assert forall|k: int| 0 <= k < found.len() implies exists|i: int|
        0 <= i < 3 && !(#[trigger] demands[i]).is_met() && demands[i].field == (
        #[trigger] found[k]).field by {
        assert(found.contains(found[k]));
        lemma_only_failures_reported(demands, found[k]);
    }
    assert(demands[0].field@ == "username"@ && demands[1].field@ == "email"@ && demands[2].field@
        == "password"@);
}

/// An address without an `@` is reported.
pub proof fn lemma_address_needs_at(request: UserAddRequest)
    requires
        !request.email@.contains('@'),
    ensures
        reports(violations(&request), "email"@),
{
    lemma_reported_fields(request);
}

} // verus!
