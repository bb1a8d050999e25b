//! Node-identity checking: extracting a node's chain id and role from the
//! semi-structured body its index endpoint returns, and judging whether a
//! target node reports the same identity as the baseline. The network fetch
//! itself is its caller's business; this module takes the already parsed
//! body as a field list.

use vstd::prelude::*;
use vstd::string::*;
use crate::ext::str_eq;
use crate::json::JsonVal;
use crate::strutil::{push_u64_dec, spec_u64_dec};

verus! {

/// A chain identifier, one byte on the wire.
#[derive(Copy, Clone, Debug, PartialEq, Eq, Structural)]
pub struct ChainId(pub u8);

impl ChainId {
    pub fn new(id: u8) -> (r: ChainId)
        ensures
            r == ChainId(id),
    {
        ChainId(id)
    }

    pub fn id(&self) -> (r: u8)
        ensures
            r == self.0,
    {
        self.0
    }
}

/// A node's role in the network.
#[derive(Copy, Clone, Debug, PartialEq, Eq, Structural)]
pub enum RoleType {
    Validator,
    FullNode,
}

/// The textual names of the roles.
pub open spec fn spec_role_name(r: RoleType) -> Seq<char> {
    match r {
        RoleType::Validator => "validator"@,
        RoleType::FullNode => "full_node"@,
    }
}

/// The role a name denotes, if any.
pub open spec fn spec_role_from_name(s: Seq<char>) -> Option<RoleType> {
    if s == "validator"@ {
        Some(RoleType::Validator)
    } else if s == "full_node"@ {
        Some(RoleType::FullNode)
    } else {
        None
    }
}

impl RoleType {
    pub fn as_str(&self) -> (r: &'static str)
        ensures
            r@ == spec_role_name(*self),
    {
        match self {
            RoleType::Validator => "validator",
            RoleType::FullNode => "full_node",
        }
    }

    /// Parses a role name; `None` exactly on unknown names.
    pub fn from_str(s: &str) -> (r: Option<RoleType>)
        ensures
            r == spec_role_from_name(s@),
    {
        if str_eq(s, "validator") {
            Some(RoleType::Validator)
        } else if str_eq(s, "full_node") {
            Some(RoleType::FullNode)
        } else {
            None
        }
    }
}

/// Why a response body yields no identity; one variant per missing or
/// ill-typed piece.
#[derive(Copy, Clone, Debug, PartialEq, Eq, Structural)]
pub enum IdentityError {
    MissingChainId,
    ChainIdNotInteger,
    MissingNodeRole,
    NodeRoleNotText,
    UnknownRole,
}

/// The first value under `key`, if any.
pub open spec fn spec_lookup(fields: Seq<(String, JsonVal)>, key: Seq<char>) -> Option<JsonVal>
    decreases fields.len(),
{
    if fields.len() == 0 {
        None
    } else if fields[0].0@ == key {
        Some(fields[0].1)
    } else {
        spec_lookup(fields.skip(1), key)
    }
}

/// The first value under `key` in a field list.
pub fn json_lookup<'a>(fields: &'a Vec<(String, JsonVal)>, key: &str) -> (r: Option<&'a JsonVal>)
    ensures
        (r is Some) == (spec_lookup(fields@, key@) is Some),
        r matches Some(v) ==> Some(*v) == spec_lookup(fields@, key@),
{
    let n = fields.len();
    let mut i: usize = 0;
    proof {
        assert(fields@.skip(0) =~= fields@);
    }
    while i < n
        invariant
            i <= n,
            n == fields@.len(),
            spec_lookup(fields@, key@) == spec_lookup(fields@.skip(i as int), key@),
        decreases n - i,
    {
        proof {
            assert(fields@.skip(i as int)[0] == fields@[i as int]);
            assert(fields@.skip(i as int).skip(1) =~= fields@.skip(i as int + 1));
        }
        if str_eq(fields[i].0.as_str(), key) {
            return Some(&fields[i].1);
        }
        i = i + 1;
    }
    proof {
        assert(fields@.skip(n as int).len() == 0);
    }
    None
}

/// The value as a non-negative 64-bit integer, as a semi-structured number
/// reads: a non-negative signed number qualifies too.
pub open spec fn json_as_u64(v: JsonVal) -> Option<u64> {
    match v {
        JsonVal::UInt(n) => Some(n),
        JsonVal::Int(n) => if n >= 0 {
            Some(n as u64)
        } else {
            None
        },
        _ => None,
    }
}

/// The identity `extract_node_identity` reads from a body, or the exact
/// error: the chain id comes from the `chain_id` member, which must exist
/// and be a non-negative number and is taken modulo one byte; the role
/// comes from the `node_role` member, which must exist, be text, and name a
/// known role.
pub open spec fn spec_extract_identity(fields: Seq<(String, JsonVal)>) -> Result<
    (ChainId, RoleType),
    IdentityError,
> {
    match spec_lookup(fields, "chain_id"@) {
        None => Err(IdentityError::MissingChainId),
        Some(cv) => match json_as_u64(cv) {
            None => Err(IdentityError::ChainIdNotInteger),
            Some(n) => match spec_lookup(fields, "node_role"@) {
                None => Err(IdentityError::MissingNodeRole),
                Some(rv) => match rv {
                    JsonVal::Str(name) => match spec_role_from_name(name@) {
                        None => Err(IdentityError::UnknownRole),
                        Some(role) => Ok((ChainId(n as u8), role)),
                    },
                    _ => Err(IdentityError::NodeRoleNotText),
                },
            },
        },
    }
}

/// Reads a node's identity from the parsed body of its index endpoint.
pub fn extract_node_identity(fields: &Vec<(String, JsonVal)>) -> (r: Result<
    (ChainId, RoleType),
    IdentityError,
>)
    ensures
        r == spec_extract_identity(fields@),
{
    let chain_val = match json_lookup(fields, "chain_id") {
        Some(v) => v,
        None => {
            return Err(IdentityError::MissingChainId);
        }
    };
    let n: u64 = match chain_val {
        JsonVal::UInt(n) => *n,
        JsonVal::Int(n) => {
            if *n >= 0 {
                *n as u64
            } else {
                return Err(IdentityError::ChainIdNotInteger);
            }
        }
        _ => {
            return Err(IdentityError::ChainIdNotInteger);
        }
    };
    let role_val = match json_lookup(fields, "node_role") {
        Some(v) => v,
        None => {
            return Err(IdentityError::MissingNodeRole);
        }
    };
    let role = match role_val {
        JsonVal::Str(name) => match RoleType::from_str(name.as_str()) {
            Some(role) => role,
            None => {
                return Err(IdentityError::UnknownRole);
            }
        },
        _ => {
            return Err(IdentityError::NodeRoleNotText);
        }
    };
    #[verifier::truncate]
    let id = n as u8;
    Ok((ChainId(id), role))
}

/// One judgement of one identity attribute: a headline, a score of 100 for
/// a match and 0 otherwise, an explanation, and the category and evaluator
/// names.
#[derive(Debug)]
pub struct EvaluationResult {
    pub headline: String,
    pub score: u64,
    pub explanation: String,
    pub category: String,
    pub evaluator_name: String,
}

/// The node-identity evaluator's error type. No code constructs a value of
/// it: the evaluator reports mismatches through scores, never through an
/// error.
#[derive(Copy, Clone, Debug)]
pub enum NodeIdentityEvaluatorError {
    Never,
}

/// The evaluator takes no configuration.
#[derive(Clone, Debug)]
pub struct NodeIdentityEvaluatorArgs {}

/// Judges whether a target node reports the same chain id and role as the
/// baseline node.
#[derive(Debug)]
pub struct NodeIdentityEvaluator {
    pub args: NodeIdentityEvaluatorArgs,
}

impl NodeIdentityEvaluator {
    pub fn new(args: NodeIdentityEvaluatorArgs) -> (r: Self)
        ensures
            r == (NodeIdentityEvaluator { args }),
    {
        NodeIdentityEvaluator { args }
    }

    pub fn get_category_name() -> (r: String)
        ensures
            r@ == "api"@,
    {
        "api".to_owned()
    }

    pub fn get_evaluator_name() -> (r: String)
        ensures
            r@ == "node_identity"@,
    {
        "node_identity".to_owned()
    }

    /// Wraps a judgement with this evaluator's category and name.
    pub fn build_evaluation_result(&self, headline: String, score: u64, explanation: String) -> (r:
        EvaluationResult)
        ensures
            r.headline == headline,
            r.score == score,
            r.explanation == explanation,
            r.category@ == "api"@,
            r.evaluator_name@ == "node_identity"@,
    {
        EvaluationResult {
            headline,
            score,
            explanation,
            category: Self::get_category_name(),
            evaluator_name: Self::get_evaluator_name(),
        }
    }

    /// Judges one attribute, rendered as text: equal values score 100 with
    /// a matching headline, differing values score 0 with a mismatch
    /// headline naming both values.
    pub fn help_build_evaluation_result(
        &self,
        baseline_value: &str,
        target_value: &str,
        attribute_str: &str,
    ) -> (r: EvaluationResult)
        ensures
            r.score == (if baseline_value@ == target_value@ {
                100int
            } else {
                0int
            }),
            baseline_value@ == target_value@ ==> r.headline@ == attribute_str@
                + " reported by baseline and target match"@,
            baseline_value@ != target_value@ ==> r.headline@ == attribute_str@
                + " reported by the target does not match the baseline"@,
            r.category@ == "api"@,
            r.evaluator_name@ == "node_identity"@,
    {
        if str_eq(baseline_value, target_value) {
            let mut headline = attribute_str.to_owned();
            headline.append(" reported by baseline and target match");
            let mut explanation = "The node under investigation reported the same ".to_owned();
            explanation.append(attribute_str);
            explanation.append(" ");
            explanation.append(target_value);
            explanation.append(" as is reported by the baseline node");
            self.build_evaluation_result(headline, 100, explanation)
        } else {
            let mut headline = attribute_str.to_owned();
            headline.append(" reported by the target does not match the baseline");
            let mut explanation = "The node under investigation reported the ".to_owned();
            explanation.append(attribute_str);
            explanation.append(" ");
            explanation.append(target_value);
            explanation.append(" while the baseline reported ");
            explanation.append(baseline_value);
            explanation.append(
                ". These values should match. Confirm that the baseline is appropriate for the node under test.",
            );
            self.build_evaluation_result(headline, 0, explanation)
        }
    }

    /// Judges a fetched target identity against the baseline: a failed
    /// fetch yields one zero-score judgement naming the failure, a fetched
    /// identity yields one judgement for the chain id and one for the role.
    pub fn evaluate_identity(
        &self,
        baseline_chain: ChainId,
        baseline_role: RoleType,
        target: Result<(ChainId, RoleType), String>,
    ) -> (r: Vec<EvaluationResult>)
        ensures
            target is Err ==> r@.len() == 1 && r@[0].score == 0,
            target matches Ok(t) ==> r@.len() == 2
                && (r@[0].score == 100 <==> t.0 == baseline_chain)
                && (r@[0].score == 100 || r@[0].score == 0)
                && (r@[1].score == 100 <==> t.1 == baseline_role)
                && (r@[1].score == 100 || r@[1].score == 0),
    {
        match target {
            Err(e) => {
                let headline = "Failed to get node identity from target node".to_owned();
                let mut explanation =
                    "Failed to get node identity from target node; make sure the API port is open and the node version is correct: ".to_owned();
                explanation.append(e.as_str());
                let res = self.build_evaluation_result(headline, 0, explanation);
                let mut out: Vec<EvaluationResult> = Vec::new();
                out.push(res);
                out
            }
            Ok((target_chain, target_role)) => {
                let mut baseline_chain_text = String::new();
                push_u64_dec(&mut baseline_chain_text, baseline_chain.0 as u64);
                let mut target_chain_text = String::new();
                push_u64_dec(&mut target_chain_text, target_chain.0 as u64);
                let chain_res = self.help_build_evaluation_result(
                    baseline_chain_text.as_str(),
                    target_chain_text.as_str(),
                    "Chain ID",
                );
                let role_res = self.help_build_evaluation_result(
                    baseline_role.as_str(),
                    target_role.as_str(),
                    "Role Type",
                );
                proof {
                    assert(baseline_chain_text@ =~= spec_u64_dec(baseline_chain.0 as int));
                    assert(target_chain_text@ =~= spec_u64_dec(target_chain.0 as int));
                    lemma_u64_dec_injective(baseline_chain.0 as u64, target_chain.0 as u64);
                    reveal_strlit("validator");
                    reveal_strlit("full_node");
                    assert(spec_role_name(RoleType::Validator)[0] == 'v');
                    assert(spec_role_name(RoleType::FullNode)[0] == 'f');
                }
                let mut out: Vec<EvaluationResult> = Vec::new();
                out.push(chain_res);
                out.push(role_res);
                out
            }
        }
    }
}

/// Distinct numbers have distinct decimal renderings, and distinct roles
/// distinct names.
pub proof fn lemma_u64_dec_injective(a: u64, b: u64)
    ensures
        (spec_u64_dec(a as int) == spec_u64_dec(b as int)) == (a == b),
{
    if a != b {
        lemma_u64_dec_values(a as int);
        lemma_u64_dec_values(b as int);
    }
}

/// The value of the digit character for `d` is `d`.
pub proof fn lemma_digit_value(d: int)
    requires
        0 <= d < 10,
    ensures
        spec_digit_value(crate::strutil::digit_char(d)) == d,
{
}

/// The decimal rendering determines the number it renders.
pub proof fn lemma_u64_dec_values(n: int)
    requires
        0 <= n,
    ensures
        spec_dec_value(spec_u64_dec(n)) == n,
        spec_u64_dec(n).len() >= 1,
        spec_u64_dec(n)[spec_u64_dec(n).len() - 1] == crate::strutil::digit_char(n % 10),
    decreases n,
{
    lemma_digit_value(n % 10);
    if n < 10 {
        let s = spec_u64_dec(n);
        assert(s =~= seq![crate::strutil::digit_char(n)]);
        assert(s.take(0) =~= Seq::<char>::empty());
        assert(spec_dec_value(s) == spec_dec_value(s.take(0)) * 10 + spec_digit_value(s[0]));
    } else {
        lemma_u64_dec_values(n / 10);
        let s = spec_u64_dec(n);
        assert(s.take(s.len() - 1) =~= spec_u64_dec(n / 10));
        assert(s[s.len() - 1] == crate::strutil::digit_char(n % 10));
        assert(spec_dec_value(s) == spec_dec_value(spec_u64_dec(n / 10)) * 10 + spec_digit_value(
            crate::strutil::digit_char(n % 10),
        ));
        assert(spec_dec_value(s) == (n / 10) * 10 + n % 10);
    }
}

/// The number a digit string denotes.
pub open spec fn spec_dec_value(s: Seq<char>) -> int
    decreases s.len(),
{
    if s.len() == 0 {
        0
    } else {
        spec_dec_value(s.take(s.len() - 1)) * 10 + spec_digit_value(s[s.len() - 1])
    }
}

/// The value of one digit character.
pub open spec fn spec_digit_value(c: char) -> int {
    if c == '0' { 0 }
    else if c == '1' { 1 }
    else if c == '2' { 2 }
    else if c == '3' { 3 }
    else if c == '4' { 4 }
    else if c == '5' { 5 }
    else if c == '6' { 6 }
    else if c == '7' { 7 }
    else if c == '8' { 8 }
    else if c == '9' { 9 }
    else { -1 }
}

} // verus!
