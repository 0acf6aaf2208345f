//! Field-level wire form of the request bodies. Each body becomes a list of
//! named fields under the wire's lower camel case names; a field whose value
//! is absent is left out rather than sent empty. Reading a body back looks
//! fields up by name, ignores names it does not know, and fails on a
//! required field that is missing or on a value of the wrong shape.

use vstd::prelude::*;
use vstd::string::*;
use crate::domain::{same_text, AuthRequestData, CollectRequestData, CardReader, CertificatePolicy, Requirement, SignRequestData};

verus! {

/// A value that is not itself an object.
pub enum WireScalar {
    Text(String),
    Flag(bool),
    Texts(Vec<String>),
}

/// A named scalar inside a nested object.
pub struct WireLeaf {
    pub key: String,
    pub value: WireScalar,
}

pub enum WireValue {
    Scalar(WireScalar),
    Object(Vec<WireLeaf>),
}

/// A named field of a request body.
pub struct WireField {
    pub key: String,
    pub value: WireValue,
}

pub enum ScalarModel {
    Text(Seq<char>),
    Flag(bool),
    Texts(Seq<Seq<char>>),
}

pub enum ValueModel {
    Scalar(ScalarModel),
    Object(Seq<(Seq<char>, ScalarModel)>),
}

/// What a requirement holds, independent of its representation.
pub struct RequirementModel {
    pub card_reader: Option<CardReader>,
    pub certificate_policies: Seq<CertificatePolicy>,
    pub auto_start_token_required: Option<bool>,
    pub allow_fingerprint: Option<bool>,
}

/// What a start-authentication body holds.
pub struct AuthModel {
    pub personal_number: Option<Seq<char>>,
    pub end_user_ip: Seq<char>,
    pub requirement: Option<RequirementModel>,
}

/// What a start-signing body holds.
pub struct SignModel {
    pub personal_number: Option<Seq<char>>,
    pub end_user_ip: Seq<char>,
    pub requirement: Option<RequirementModel>,
    pub user_visible_data: Seq<char>,
    pub user_non_visible_data: Option<Seq<char>>,
}

impl View for WireScalar {
    type V = ScalarModel;

    open spec fn view(&self) -> ScalarModel {
        match self {
            WireScalar::Text(s) => ScalarModel::Text(s@),
            WireScalar::Flag(b) => ScalarModel::Flag(*b),
            WireScalar::Texts(v) => ScalarModel::Texts(v@.map_values(|s: String| s@)),
        }
    }
}

impl View for WireLeaf {
    type V = (Seq<char>, ScalarModel);

    open spec fn view(&self) -> (Seq<char>, ScalarModel) {
        (self.key@, self.value@)
    }
}

impl View for WireValue {
    type V = ValueModel;

    open spec fn view(&self) -> ValueModel {
        match self {
            WireValue::Scalar(s) => ValueModel::Scalar(s@),
            WireValue::Object(v) => ValueModel::Object(v@.map_values(|l: WireLeaf| l@)),
        }
    }
}

impl View for WireField {
    type V = (Seq<char>, ValueModel);

    open spec fn view(&self) -> (Seq<char>, ValueModel) {
        (self.key@, self.value@)
    }
}

impl View for Requirement {
    type V = RequirementModel;

    open spec fn view(&self) -> RequirementModel {
        RequirementModel {
            card_reader: self.card_reader,
            certificate_policies: self.certificate_policies@,
            auto_start_token_required: self.auto_start_token_required,
            allow_fingerprint: self.allow_fingerprint,
        }
    }
}

pub open spec fn requirement_model(q: Option<Requirement>) -> Option<RequirementModel> {
    match q {
        Some(q) => Some(q@),
        None => None,
    }
}

pub open spec fn text_model(s: Option<String>) -> Option<Seq<char>> {
    match s {
        Some(s) => Some(s@),
        None => None,
    }
}

impl View for AuthRequestData {
    type V = AuthModel;

    open spec fn view(&self) -> AuthModel {
        AuthModel {
            personal_number: text_model(self.personal_number),
            end_user_ip: self.end_user_ip@,
            requirement: requirement_model(self.requirement),
        }
    }
}

impl View for SignRequestData {
    type V = SignModel;

    open spec fn view(&self) -> SignModel {
        SignModel {
            personal_number: text_model(self.personal_number),
            end_user_ip: self.end_user_ip@,
            requirement: requirement_model(self.requirement),
            user_visible_data: self.user_visible_data@,
            user_non_visible_data: text_model(self.user_non_visible_data),
        }
    }
}

/// The value of the first entry named `key`.
pub open spec fn find<V>(entries: Seq<(Seq<char>, V)>, key: Seq<char>) -> Option<V>
    decreases entries.len(),
{
    if entries.len() == 0 {
        None
    } else if entries[0].0 == key {
        Some(entries[0].1)
    } else {
        find(entries.drop_first(), key)
    }
}

/// An entry when the value is present, none when it is absent.
pub open spec fn entry_if<V>(key: Seq<char>, value: Option<V>) -> Seq<(Seq<char>, V)> {
    match value {
        Some(v) => seq![(key, v)],
        None => Seq::empty(),
    }
}

pub open spec fn opt_text(s: Option<Seq<char>>) -> Option<ScalarModel> {
    match s {
        Some(t) => Some(ScalarModel::Text(t)),
        None => None,
    }
}

pub open spec fn opt_flag(b: Option<bool>) -> Option<ScalarModel> {
    match b {
        Some(f) => Some(ScalarModel::Flag(f)),
        None => None,
    }
}

pub open spec fn opt_card_reader(c: Option<CardReader>) -> Option<ScalarModel> {
    match c {
        Some(c) => Some(ScalarModel::Text(c.spec_wire_name())),
        None => None,
    }
}

pub open spec fn policy_names(ps: Seq<CertificatePolicy>) -> Seq<Seq<char>> {
    ps.map_values(|p: CertificatePolicy| p.spec_wire_name())
}

/// The wire form of a requirement.
pub open spec fn encode_requirement(q: RequirementModel) -> Seq<(Seq<char>, ScalarModel)> {
    entry_if("cardReader"@, opt_card_reader(q.card_reader)) + seq![
        ("certificatePolicies"@, ScalarModel::Texts(policy_names(q.certificate_policies))),
    ] + entry_if("autoStartTokenRequired"@, opt_flag(q.auto_start_token_required)) + entry_if(
        "allowFingerprint"@,
        opt_flag(q.allow_fingerprint),
    )
}

/// An optional text field: absent is fine, a value of another shape is not.
pub open spec fn decode_opt_text(v: Option<ScalarModel>) -> Option<Option<Seq<char>>> {
    match v {
        None => Some(None),
        Some(ScalarModel::Text(t)) => Some(Some(t)),
        Some(_) => None,
    }
}

pub open spec fn decode_opt_flag(v: Option<ScalarModel>) -> Option<Option<bool>> {
    match v {
        None => Some(None),
        Some(ScalarModel::Flag(b)) => Some(Some(b)),
        Some(_) => None,
    }
}

pub open spec fn decode_opt_card_reader(v: Option<ScalarModel>) -> Option<Option<CardReader>> {
    match v {
        None => Some(None),
        Some(ScalarModel::Text(t)) => match CardReader::spec_from_wire(t) {
            Some(c) => Some(Some(c)),
            None => None,
        },
        Some(_) => None,
    }
}

/// Decoding of a list of policy identifiers; one unknown identifier fails
/// the whole list.
pub open spec fn decode_policies(ts: Seq<Seq<char>>) -> Option<Seq<CertificatePolicy>>
    decreases ts.len(),
{
    if ts.len() == 0 {
        Some(Seq::empty())
    } else {
        match decode_policies(ts.drop_last()) {
            Some(ps) => match CertificatePolicy::spec_from_wire(ts.last()) {
                Some(p) => Some(ps.push(p)),
                None => None,
            },
            None => None,
        }
    }
}

/// Reading a requirement back from its wire form.
pub open spec fn decode_requirement(e: Seq<(Seq<char>, ScalarModel)>) -> Option<
    RequirementModel,
> {
    let card = decode_opt_card_reader(find(e, "cardReader"@));
    let auto = decode_opt_flag(find(e, "autoStartTokenRequired"@));
    let fp = decode_opt_flag(find(e, "allowFingerprint"@));
    let policies = match find(e, "certificatePolicies"@) {
        Some(ScalarModel::Texts(ts)) => decode_policies(ts),
        _ => None,
    };
    if card is Some && auto is Some && fp is Some && policies is Some {
        Some(
            RequirementModel {
                card_reader: card->0,
                certificate_policies: policies->0,
                auto_start_token_required: auto->0,
                allow_fingerprint: fp->0,
            },
        )
    } else {
        None
    }
}

/// Looking a key up in two lists joined is looking it up in the first, and
/// then in the second.
pub proof fn lemma_find_concat<V>(a: Seq<(Seq<char>, V)>, b: Seq<(Seq<char>, V)>, key: Seq<char>)
    ensures
        find(a + b, key) == (if find(a, key) is Some {
            find(a, key)
        } else {
            find(b, key)
        }),
    decreases a.len(),
{
    if a.len() > 0 {
        assert((a + b).drop_first() =~= a.drop_first() + b);
        lemma_find_concat(a.drop_first(), b, key);
    } else {
        assert(a + b =~= b);
    }
}

pub proof fn lemma_find_entry_if<V>(k: Seq<char>, v: Option<V>, key: Seq<char>)
    ensures
        find(entry_if(k, v), key) == (if k == key {
            v
        } else {
            None
        }),
{
    if v is Some {
        let rest = entry_if(k, v).drop_first();
        assert(rest =~= Seq::<(Seq<char>, V)>::empty());
        assert(find(rest, key) is None);
    } else {
        assert(find(entry_if(k, v), key) is None);
    }
}

/// Every policy but the test Nordea policy, whose identifier it shares with
/// the production one, decodes from its own identifier.
pub proof fn lemma_policy_round_trip(p: CertificatePolicy)
    requires
        p != CertificatePolicy::TestNordeaEidOnFileSmartCard,
    ensures
        CertificatePolicy::spec_from_wire(p.spec_wire_name()) == Some(p),
{
    reveal_strlit("1.2.752.78.1.1");
    reveal_strlit("1.2.752.78.1.2");
    reveal_strlit("1.2.752.78.1.5");
    reveal_strlit("1.2.752.71.1.3");
    reveal_strlit("1.2.3.4.5");
    reveal_strlit("1.2.3.4.10");
    reveal_strlit("1.2.3.4.25");
    reveal_strlit("1.2.752.60.1.6");
    assert("1.2.752.78.1.1"@.len() == 14 && "1.2.752.78.1.1"@[13] == '1');
    assert("1.2.752.78.1.2"@.len() == 14 && "1.2.752.78.1.2"@[13] == '2');
    assert("1.2.752.78.1.5"@.len() == 14 && "1.2.752.78.1.5"@[13] == '5');
    assert("1.2.752.71.1.3"@.len() == 14 && "1.2.752.71.1.3"@[9] == '1'
        && "1.2.752.71.1.3"@[13] == '3');
    assert("1.2.752.78.1.1"@[9] == '8' && "1.2.752.78.1.2"@[9] == '8'
        && "1.2.752.78.1.5"@[9] == '8');
    assert("1.2.3.4.5"@.len() == 9);
    assert("1.2.3.4.10"@.len() == 10 && "1.2.3.4.10"@[8] == '1');
    assert("1.2.3.4.25"@.len() == 10 && "1.2.3.4.25"@[8] == '2');
    assert("1.2.752.60.1.6"@.len() == 14 && "1.2.752.60.1.6"@[8] == '6'
        && "1.2.752.60.1.6"@[13] == '6');
    assert("1.2.752.78.1.1"@[8] == '7' && "1.2.752.78.1.2"@[8] == '7'
        && "1.2.752.78.1.5"@[8] == '7' && "1.2.752.71.1.3"@[8] == '7');
}

pub proof fn lemma_card_reader_round_trip(c: CardReader)
    ensures
        CardReader::spec_from_wire(c.spec_wire_name()) == Some(c),
{
    reveal_strlit("class1");
    reveal_strlit("class2");
    assert("class1"@[5] == '1' && "class2"@[5] == '2');
}

/// Whether a list of policies avoids the test Nordea policy.
pub open spec fn avoids_shared_identifier(ps: Seq<CertificatePolicy>) -> bool {
    forall|i: int| 0 <= i < ps.len() ==> ps[i] != CertificatePolicy::TestNordeaEidOnFileSmartCard
}

pub proof fn lemma_policies_round_trip(ps: Seq<CertificatePolicy>)
    requires
        avoids_shared_identifier(ps),
    ensures
        decode_policies(policy_names(ps)) == Some(ps),
    decreases ps.len(),
{
    if ps.len() > 0 {
        let names = policy_names(ps);
        assert(names.drop_last() =~= policy_names(ps.drop_last()));
        lemma_policies_round_trip(ps.drop_last());
        lemma_policy_round_trip(ps.last());
        assert(ps.drop_last().push(ps.last()) =~= ps);
    } else {
        assert(policy_names(ps) =~= Seq::<Seq<char>>::empty());
    }
}

pub proof fn lemma_requirement_keys_differ()
    ensures
        "cardReader"@ != "certificatePolicies"@,
        "cardReader"@ != "autoStartTokenRequired"@,
        "cardReader"@ != "allowFingerprint"@,
        "certificatePolicies"@ != "autoStartTokenRequired"@,
        "certificatePolicies"@ != "allowFingerprint"@,
        "autoStartTokenRequired"@ != "allowFingerprint"@,
{
    reveal_strlit("cardReader");
    reveal_strlit("certificatePolicies");
    reveal_strlit("autoStartTokenRequired");
    reveal_strlit("allowFingerprint");
    assert("cardReader"@.len() == 10);
    assert("certificatePolicies"@.len() == 19);
    assert("autoStartTokenRequired"@.len() == 22);
    assert("allowFingerprint"@.len() == 16);
}

/// Writing a requirement to its wire form and reading it back gives the
/// same requirement, whichever optional fields were left out.
pub proof fn lemma_requirement_round_trip(q: RequirementModel)
    requires
        avoids_shared_identifier(q.certificate_policies),
    ensures
        decode_requirement(encode_requirement(q)) == Some(q),
{
    let a = entry_if("cardReader"@, opt_card_reader(q.card_reader));
    let b = seq![("certificatePolicies"@, ScalarModel::Texts(policy_names(q.certificate_policies)))];
    let c = entry_if("autoStartTokenRequired"@, opt_flag(q.auto_start_token_required));
    let d = entry_if("allowFingerprint"@, opt_flag(q.allow_fingerprint));
    let e = encode_requirement(q);
    assert(e == a + b + c + d);
    lemma_requirement_keys_differ();
    assert(b.drop_first() =~= Seq::<(Seq<char>, ScalarModel)>::empty());
    let keys = seq!["cardReader"@, "certificatePolicies"@, "autoStartTokenRequired"@, "allowFingerprint"@];
    assert forall|i: int| 0 <= i < 4 implies find(e, #[trigger] keys[i]) == (if i == 0 {
        opt_card_reader(q.card_reader)
    } else if i == 1 {
        Some(ScalarModel::Texts(policy_names(q.certificate_policies)))
    } else if i == 2 {
        opt_flag(q.auto_start_token_required)
    } else {
        opt_flag(q.allow_fingerprint)
    }) by {
        let k = keys[i];
        lemma_find_concat(a + b + c, d, k);
        lemma_find_concat(a + b, c, k);
        lemma_find_concat(a, b, k);
        lemma_find_entry_if("cardReader"@, opt_card_reader(q.card_reader), k);
        lemma_find_entry_if("autoStartTokenRequired"@, opt_flag(q.auto_start_token_required), k);
        lemma_find_entry_if("allowFingerprint"@, opt_flag(q.allow_fingerprint), k);
    }
    assert(find(e, keys[0]) == opt_card_reader(q.card_reader));
    assert(find(e, keys[1]) == Some(ScalarModel::Texts(policy_names(q.certificate_policies))));
    assert(find(e, keys[2]) == opt_flag(q.auto_start_token_required));
    assert(find(e, keys[3]) == opt_flag(q.allow_fingerprint));
    if let Some(cr) = q.card_reader {
        lemma_card_reader_round_trip(cr);
    }
    lemma_policies_round_trip(q.certificate_policies);
}

pub open spec fn opt_text_value(s: Option<Seq<char>>) -> Option<ValueModel> {
    match s {
        Some(t) => Some(ValueModel::Scalar(ScalarModel::Text(t))),
        None => None,
    }
}

pub open spec fn opt_requirement_value(q: Option<RequirementModel>) -> Option<ValueModel> {
    match q {
        Some(q) => Some(ValueModel::Object(encode_requirement(q))),
        None => None,
    }
}

pub open spec fn text_value(t: Seq<char>) -> ValueModel {
    ValueModel::Scalar(ScalarModel::Text(t))
}

/// The wire form of a start-authentication body.
pub open spec fn encode_auth(m: AuthModel) -> Seq<(Seq<char>, ValueModel)> {
    entry_if("personalNumber"@, opt_text_value(m.personal_number)) + seq![
        ("endUserIp"@, text_value(m.end_user_ip)),
    ] + entry_if("requirement"@, opt_requirement_value(m.requirement))
}

/// The wire form of a start-signing body.
pub open spec fn encode_sign(m: SignModel) -> Seq<(Seq<char>, ValueModel)> {
    entry_if("personalNumber"@, opt_text_value(m.personal_number)) + seq![
        ("endUserIp"@, text_value(m.end_user_ip)),
    ] + entry_if("requirement"@, opt_requirement_value(m.requirement)) + seq![
        ("userVisibleData"@, text_value(m.user_visible_data)),
    ] + entry_if("userNonVisibleData"@, opt_text_value(m.user_non_visible_data))
}

pub open spec fn decode_text_value(v: Option<ValueModel>) -> Option<Seq<char>> {
    match v {
        Some(ValueModel::Scalar(ScalarModel::Text(t))) => Some(t),
        _ => None,
    }
}

pub open spec fn decode_opt_text_value(v: Option<ValueModel>) -> Option<Option<Seq<char>>> {
    match v {
        None => Some(None),
        Some(ValueModel::Scalar(ScalarModel::Text(t))) => Some(Some(t)),
        Some(_) => None,
    }
}

pub open spec fn decode_opt_requirement_value(v: Option<ValueModel>) -> Option<
    Option<RequirementModel>,
> {
    match v {
        None => Some(None),
        Some(ValueModel::Object(e)) => match decode_requirement(e) {
            Some(q) => Some(Some(q)),
            None => None,
        },
        Some(_) => None,
    }
}

/// Reading a start-authentication body back from its wire form.
pub open spec fn decode_auth(e: Seq<(Seq<char>, ValueModel)>) -> Option<AuthModel> {
    let pn = decode_opt_text_value(find(e, "personalNumber"@));
    let ip = decode_text_value(find(e, "endUserIp"@));
    let q = decode_opt_requirement_value(find(e, "requirement"@));
    if pn is Some && ip is Some && q is Some {
        Some(AuthModel { personal_number: pn->0, end_user_ip: ip->0, requirement: q->0 })
    } else {
        None
    }
}

/// Reading a start-signing body back from its wire form.
pub open spec fn decode_sign(e: Seq<(Seq<char>, ValueModel)>) -> Option<SignModel> {
    let pn = decode_opt_text_value(find(e, "personalNumber"@));
    let ip = decode_text_value(find(e, "endUserIp"@));
    let q = decode_opt_requirement_value(find(e, "requirement"@));
    let vis = decode_text_value(find(e, "userVisibleData"@));
    let hid = decode_opt_text_value(find(e, "userNonVisibleData"@));
    if pn is Some && ip is Some && q is Some && vis is Some && hid is Some {
        Some(
            SignModel {
                personal_number: pn->0,
                end_user_ip: ip->0,
                requirement: q->0,
                user_visible_data: vis->0,
                user_non_visible_data: hid->0,
            },
        )
    } else {
        None
    }
}

/// Whether a body's requirement, if any, avoids the test Nordea policy.
pub open spec fn requirement_ok(q: Option<RequirementModel>) -> bool {
    q matches Some(r) ==> avoids_shared_identifier(r.certificate_policies)
}

pub proof fn lemma_request_keys_differ()
    ensures
        "personalNumber"@ != "endUserIp"@,
        "personalNumber"@ != "requirement"@,
        "personalNumber"@ != "userVisibleData"@,
        "personalNumber"@ != "userNonVisibleData"@,
        "endUserIp"@ != "requirement"@,
        "endUserIp"@ != "userVisibleData"@,
        "endUserIp"@ != "userNonVisibleData"@,
        "requirement"@ != "userVisibleData"@,
        "requirement"@ != "userNonVisibleData"@,
        "userVisibleData"@ != "userNonVisibleData"@,
{
    reveal_strlit("personalNumber");
    reveal_strlit("endUserIp");
    reveal_strlit("requirement");
    reveal_strlit("userVisibleData");
    reveal_strlit("userNonVisibleData");
    assert("personalNumber"@.len() == 14);
    assert("endUserIp"@.len() == 9);
    assert("requirement"@.len() == 11);
    assert("userVisibleData"@.len() == 15);
    assert("userNonVisibleData"@.len() == 18);
}

pub proof fn lemma_requirement_value_round_trip(q: Option<RequirementModel>)
    requires
        requirement_ok(q),
    ensures
        decode_opt_requirement_value(opt_requirement_value(q)) == Some(q),
{
    if let Some(r) = q {
        lemma_requirement_round_trip(r);
    }
}

/// Writing a start-authentication body to its wire form and reading it
/// back gives the same body, whichever optional fields were left out.
pub proof fn lemma_auth_round_trip(m: AuthModel)
    requires
        requirement_ok(m.requirement),
    ensures
        decode_auth(encode_auth(m)) == Some(m),
{
    let a = entry_if("personalNumber"@, opt_text_value(m.personal_number));
    let b = seq![("endUserIp"@, text_value(m.end_user_ip))];
    let c = entry_if("requirement"@, opt_requirement_value(m.requirement));
    let e = encode_auth(m);
    lemma_request_keys_differ();
    assert(b.drop_first() =~= Seq::<(Seq<char>, ValueModel)>::empty());
    assert(find(b.drop_first(), "personalNumber"@) is None);
    assert(find(b.drop_first(), "requirement"@) is None);
    let k0 = "personalNumber"@;
    let k1 = "endUserIp"@;
    let k2 = "requirement"@;
    lemma_find_concat(a + b, c, k0);
    lemma_find_concat(a, b, k0);
    lemma_find_entry_if(k0, opt_text_value(m.personal_number), k0);
    lemma_find_entry_if(k2, opt_requirement_value(m.requirement), k0);
    lemma_find_concat(a + b, c, k1);
    lemma_find_concat(a, b, k1);
    lemma_find_entry_if(k0, opt_text_value(m.personal_number), k1);
    lemma_find_concat(a + b, c, k2);
    lemma_find_concat(a, b, k2);
    lemma_find_entry_if(k0, opt_text_value(m.personal_number), k2);
    lemma_find_entry_if(k2, opt_requirement_value(m.requirement), k2);
    lemma_requirement_value_round_trip(m.requirement);
}

/// Writing a start-signing body to its wire form and reading it back gives
/// the same body, whichever optional fields were left out.
pub proof fn lemma_sign_round_trip(m: SignModel)
    requires
        requirement_ok(m.requirement),
    ensures
        decode_sign(encode_sign(m)) == Some(m),
{
    let a = entry_if("personalNumber"@, opt_text_value(m.personal_number));
    let b = seq![("endUserIp"@, text_value(m.end_user_ip))];
    let c = entry_if("requirement"@, opt_requirement_value(m.requirement));
    let d = seq![("userVisibleData"@, text_value(m.user_visible_data))];
    let f = entry_if("userNonVisibleData"@, opt_text_value(m.user_non_visible_data));
    lemma_request_keys_differ();
    let keys = seq![
        "personalNumber"@,
        "endUserIp"@,
        "requirement"@,
        "userVisibleData"@,
        "userNonVisibleData"@,
    ];
    assert(b.drop_first() =~= Seq::<(Seq<char>, ValueModel)>::empty());
    assert(d.drop_first() =~= Seq::<(Seq<char>, ValueModel)>::empty());
    assert forall|i: int| 0 <= i < 5 implies find(encode_sign(m), #[trigger] keys[i]) == (if i
        == 0 {
        opt_text_value(m.personal_number)
    } else if i == 1 {
        Some(text_value(m.end_user_ip))
    } else if i == 2 {
        opt_requirement_value(m.requirement)
    } else if i == 3 {
        Some(text_value(m.user_visible_data))
    } else {
        opt_text_value(m.user_non_visible_data)
    }) by {
        let k = keys[i];
        assert(find(b.drop_first(), k) is None);
        assert(find(d.drop_first(), k) is None);
        lemma_find_concat(a + b + c + d, f, k);
        lemma_find_concat(a + b + c, d, k);
        lemma_find_concat(a + b, c, k);
        lemma_find_concat(a, b, k);
        lemma_find_entry_if(keys[0], opt_text_value(m.personal_number), k);
        lemma_find_entry_if(keys[2], opt_requirement_value(m.requirement), k);
        lemma_find_entry_if(keys[4], opt_text_value(m.user_non_visible_data), k);
    }
    assert(find(encode_sign(m), keys[0]) == opt_text_value(m.personal_number));
    assert(find(encode_sign(m), keys[1]) == Some(text_value(m.end_user_ip)));
    assert(find(encode_sign(m), keys[2]) == opt_requirement_value(m.requirement));
    assert(find(encode_sign(m), keys[3]) == Some(text_value(m.user_visible_data)));
    assert(find(encode_sign(m), keys[4]) == opt_text_value(m.user_non_visible_data));
    lemma_requirement_value_round_trip(m.requirement);
}

pub open spec fn leaves_model(e: Seq<WireLeaf>) -> Seq<(Seq<char>, ScalarModel)> {
    e.map_values(|l: WireLeaf| l@)
}

pub open spec fn fields_model(e: Seq<WireField>) -> Seq<(Seq<char>, ValueModel)> {
    e.map_values(|f: WireField| f@)
}

pub open spec fn texts_model(ts: Seq<String>) -> Seq<Seq<char>> {
    ts.map_values(|s: String| s@)
}

pub proof fn lemma_find_skip<V>(entries: Seq<(Seq<char>, V)>, i: int, key: Seq<char>)
    requires
        0 <= i < entries.len(),
        entries[i].0 != key,
    ensures
        find(entries.subrange(i, entries.len() as int), key) == find(
            entries.subrange(i + 1, entries.len() as int),
            key,
        ),
{
    assert(entries.subrange(i, entries.len() as int).drop_first() =~= entries.subrange(
        i + 1,
        entries.len() as int,
    ));
}

/// The value of the first leaf named `key`.
fn find_leaf<'a>(e: &'a Vec<WireLeaf>, key: &str) -> (r: Option<&'a WireScalar>)
    ensures
        r matches Some(v) ==> find(leaves_model(e@), key@) == Some(v@),
        r is None ==> find(leaves_model(e@), key@) is None,
{
    let ghost m = leaves_model(e@);
    let mut i: usize = 0;
    assert(m.subrange(0, m.len() as int) =~= m);
    while i < e.len()
        invariant
            i <= e@.len(),
            m == leaves_model(e@),
            find(m, key@) == find(m.subrange(i as int, m.len() as int), key@),
        decreases e@.len() - i,
    {
        if same_text(e[i].key.as_str(), key) {
            return Some(&e[i].value);
        }
        proof {
            lemma_find_skip(m, i as int, key@);
        }
        i = i + 1;
    }
    assert(m.subrange(i as int, m.len() as int) =~= Seq::<(Seq<char>, ScalarModel)>::empty());
    None
}

/// The value of the first field named `key`.
fn find_field<'a>(e: &'a Vec<WireField>, key: &str) -> (r: Option<&'a WireValue>)
    ensures
        r matches Some(v) ==> find(fields_model(e@), key@) == Some(v@),
        r is None ==> find(fields_model(e@), key@) is None,
{
    let ghost m = fields_model(e@);
    let mut i: usize = 0;
    assert(m.subrange(0, m.len() as int) =~= m);
    while i < e.len()
        invariant
            i <= e@.len(),
            m == fields_model(e@),
            find(m, key@) == find(m.subrange(i as int, m.len() as int), key@),
        decreases e@.len() - i,
    {
        if same_text(e[i].key.as_str(), key) {
            return Some(&e[i].value);
        }
        proof {
            lemma_find_skip(m, i as int, key@);
        }
        i = i + 1;
    }
    assert(m.subrange(i as int, m.len() as int) =~= Seq::<(Seq<char>, ValueModel)>::empty());
    None
}

pub proof fn lemma_decode_policies_stays_failed(ts: Seq<Seq<char>>, i: int)
    requires
        0 <= i <= ts.len(),
        decode_policies(ts.take(i)) is None,
    ensures
        decode_policies(ts) is None,
    decreases ts.len() - i,
{
    if i < ts.len() {
        assert(ts.take(i + 1).drop_last() =~= ts.take(i));
        lemma_decode_policies_stays_failed(ts, i + 1);
    } else {
        assert(ts.take(i) =~= ts);
    }
}

fn policy_texts(ps: &Vec<CertificatePolicy>) -> (r: Vec<String>)
    ensures
        texts_model(r@) == policy_names(ps@),
{
    let mut r: Vec<String> = Vec::new();
    let mut i: usize = 0;
    while i < ps.len()
        invariant
            i <= ps@.len(),
            r@.len() == i,
            forall|j: int| 0 <= j < i ==> (#[trigger] r@[j])@ == ps@[j].spec_wire_name(),
        decreases ps@.len() - i,
    {
        r.push(String::from_str(ps[i].wire_name()));
        i = i + 1;
    }
    assert(texts_model(r@) =~= policy_names(ps@));
    r
}

fn policies_from_texts(ts: &Vec<String>) -> (r: Option<Vec<CertificatePolicy>>)
    ensures
        r matches Some(v) ==> decode_policies(texts_model(ts@)) == Some(v@),
        r is None ==> decode_policies(texts_model(ts@)) is None,
{
    let ghost m = texts_model(ts@);
    let mut out: Vec<CertificatePolicy> = Vec::new();
    let mut i: usize = 0;
    assert(m.take(0) =~= Seq::<Seq<char>>::empty());
    while i < ts.len()
        invariant
            i <= ts@.len(),
            m == texts_model(ts@),
            decode_policies(m.take(i as int)) == Some(out@),
        decreases ts@.len() - i,
    {
        assert(m.take(i + 1).drop_last() =~= m.take(i as int));
        assert(m.take(i + 1).last() == ts@[i as int]@);
        match CertificatePolicy::from_wire(ts[i].as_str()) {
            Some(p) => {
                out.push(p);
            },
            None => {
                proof {
                    lemma_decode_policies_stays_failed(m, i + 1);
                }
                return None;
            },
        }
        i = i + 1;
    }
    assert(m.take(i as int) =~= m);
    Some(out)
}

impl Requirement {
    /// The requirement's wire form; absent optional fields are left out.
    pub fn to_wire(&self) -> (r: Vec<WireLeaf>)
        ensures
            leaves_model(r@) == encode_requirement(self@),
    {
        let mut r: Vec<WireLeaf> = Vec::new();
        let ghost a = entry_if("cardReader"@, opt_card_reader(self.card_reader));
        if let Some(c) = &self.card_reader {
            r.push(
                WireLeaf {
                    key: String::from_str("cardReader"),
                    value: WireScalar::Text(String::from_str(c.wire_name())),
                },
            );
        }
        assert(leaves_model(r@) =~= a);
        let ghost b = seq![
            ("certificatePolicies"@, ScalarModel::Texts(policy_names(self.certificate_policies@))),
        ];
        r.push(
            WireLeaf {
                key: String::from_str("certificatePolicies"),
                value: WireScalar::Texts(policy_texts(&self.certificate_policies)),
            },
        );
        assert(leaves_model(r@) =~= a + b);
        let ghost c = entry_if("autoStartTokenRequired"@, opt_flag(self.auto_start_token_required));
        if let Some(f) = self.auto_start_token_required {
            r.push(
                WireLeaf { key: String::from_str("autoStartTokenRequired"), value: WireScalar::Flag(f) },
            );
        }
        assert(leaves_model(r@) =~= a + b + c);
        let ghost d = entry_if("allowFingerprint"@, opt_flag(self.allow_fingerprint));
        if let Some(f) = self.allow_fingerprint {
            r.push(WireLeaf { key: String::from_str("allowFingerprint"), value: WireScalar::Flag(f) });
        }
        assert(leaves_model(r@) =~= a + b + c + d);
        r
    }

    /// Reads a requirement back from its wire form.
    pub fn from_wire(e: &Vec<WireLeaf>) -> (r: Option<Requirement>)
        ensures
            requirement_model(r) == decode_requirement(leaves_model(e@)),
    {
        let card_reader = match find_leaf(e, "cardReader") {
            None => None,
            Some(WireScalar::Text(t)) => match CardReader::from_wire(t.as_str()) {
                Some(c) => Some(c),
                None => return None,
            },
            Some(_) => return None,
        };
        let auto_start_token_required = match find_leaf(e, "autoStartTokenRequired") {
            None => None,
            Some(WireScalar::Flag(f)) => Some(*f),
            Some(_) => return None,
        };
        let allow_fingerprint = match find_leaf(e, "allowFingerprint") {
            None => None,
            Some(WireScalar::Flag(f)) => Some(*f),
            Some(_) => return None,
        };
        let certificate_policies = match find_leaf(e, "certificatePolicies") {
            Some(WireScalar::Texts(ts)) => match policies_from_texts(ts) {
                Some(ps) => ps,
                None => return None,
            },
            _ => return None,
        };
        Some(Requirement { card_reader, certificate_policies, auto_start_token_required, allow_fingerprint })
    }
}

fn text_field(key: &str, value: &String) -> (r: WireField)
    ensures
        r@ == (key@, text_value(value@)),
{
    WireField { key: String::from_str(key), value: WireValue::Scalar(WireScalar::Text(value.clone())) }
}

fn requirement_field(q: &Requirement) -> (r: WireField)
    ensures
        r@ == ("requirement"@, ValueModel::Object(encode_requirement(q@))),
{
    WireField { key: String::from_str("requirement"), value: WireValue::Object(q.to_wire()) }
}

fn read_opt_text(v: Option<&WireValue>) -> (r: Result<Option<String>, ()>)
    ensures
        v is None ==> r == Ok::<Option<String>, ()>(None),
        v matches Some(w) ==> (r matches Ok(t) <==> decode_opt_text_value(Some(w@)) is Some),
        v matches Some(w) ==> (r matches Ok(t) ==> decode_opt_text_value(Some(w@)) == Some(
            text_model(t),
        )),
{
    match v {
        None => Ok(None),
        Some(WireValue::Scalar(WireScalar::Text(t))) => Ok(Some(t.clone())),
        Some(_) => Err(()),
    }
}

fn read_text(v: Option<&WireValue>) -> (r: Option<String>)
    ensures
        v is None ==> r is None,
        v matches Some(w) ==> (r is Some <==> decode_text_value(Some(w@)) is Some),
        v matches Some(w) ==> (r matches Some(t) ==> decode_text_value(Some(w@)) == Some(t@)),
{
    match v {
        Some(WireValue::Scalar(WireScalar::Text(t))) => Some(t.clone()),
        _ => None,
    }
}

fn read_opt_requirement(v: Option<&WireValue>) -> (r: Result<Option<Requirement>, ()>)
    ensures
        v is None ==> r == Ok::<Option<Requirement>, ()>(None),
        v matches Some(w) ==> (r is Ok <==> decode_opt_requirement_value(Some(w@)) is Some),
        v matches Some(w) ==> (r matches Ok(q) ==> decode_opt_requirement_value(Some(w@))
            == Some(requirement_model(q))),
{
    match v {
        None => Ok(None),
        Some(WireValue::Object(e)) => match Requirement::from_wire(e) {
            Some(q) => Ok(Some(q)),
            None => Err(()),
        },
        Some(_) => Err(()),
    }
}

impl AuthRequestData {
    /// The body's wire form; absent optional fields are left out.
    pub fn to_wire(&self) -> (r: Vec<WireField>)
        ensures
            fields_model(r@) == encode_auth(self@),
    {
        let mut r: Vec<WireField> = Vec::new();
        let ghost a = entry_if("personalNumber"@, opt_text_value(text_model(self.personal_number)));
        if let Some(p) = &self.personal_number {
            r.push(text_field("personalNumber", p));
        }
        assert(fields_model(r@) =~= a);
        let ghost b = seq![("endUserIp"@, text_value(self.end_user_ip@))];
        r.push(text_field("endUserIp", &self.end_user_ip));
        assert(fields_model(r@) =~= a + b);
        let ghost c = entry_if("requirement"@, opt_requirement_value(requirement_model(self.requirement)));
        if let Some(q) = &self.requirement {
            r.push(requirement_field(q));
        }
        assert(fields_model(r@) =~= a + b + c);
        r
    }

    /// Reads a body back from its wire form: `None` when a required field
    /// is missing or a value has the wrong shape.
    pub fn from_wire(e: &Vec<WireField>) -> (r: Option<AuthRequestData>)
        ensures
            r matches Some(d) ==> decode_auth(fields_model(e@)) == Some(d@),
            r is None ==> decode_auth(fields_model(e@)) is None,
    {
        let personal_number = match read_opt_text(find_field(e, "personalNumber")) {
            Ok(p) => p,
            Err(_) => return None,
        };
        let end_user_ip = match read_text(find_field(e, "endUserIp")) {
            Some(t) => t,
            None => return None,
        };
        let requirement = match read_opt_requirement(find_field(e, "requirement")) {
            Ok(q) => q,
            Err(_) => return None,
        };
        Some(AuthRequestData { personal_number, end_user_ip, requirement })
    }
}

impl CollectRequestData {
    /// The body's wire form: the order reference alone.
    pub fn to_wire(&self) -> (r: Vec<WireField>)
        ensures
            fields_model(r@) == seq![("orderRef"@, text_value(self.order_ref@))],
    {
        let mut r: Vec<WireField> = Vec::new();
        r.push(text_field("orderRef", &self.order_ref));
        assert(fields_model(r@) =~= seq![("orderRef"@, text_value(self.order_ref@))]);
        r
    }
}

impl SignRequestData {
    /// The body's wire form; absent optional fields are left out.
    pub fn to_wire(&self) -> (r: Vec<WireField>)
        ensures
            fields_model(r@) == encode_sign(self@),
    {
        let mut r: Vec<WireField> = Vec::new();
        let ghost a = entry_if("personalNumber"@, opt_text_value(text_model(self.personal_number)));
        if let Some(p) = &self.personal_number {
            r.push(text_field("personalNumber", p));
        }
        assert(fields_model(r@) =~= a);
        let ghost b = seq![("endUserIp"@, text_value(self.end_user_ip@))];
        r.push(text_field("endUserIp", &self.end_user_ip));
        assert(fields_model(r@) =~= a + b);
        let ghost c = entry_if("requirement"@, opt_requirement_value(requirement_model(self.requirement)));
        if let Some(q) = &self.requirement {
            r.push(requirement_field(q));
        }
        assert(fields_model(r@) =~= a + b + c);
        let ghost d = seq![("userVisibleData"@, text_value(self.user_visible_data@))];
        r.push(text_field("userVisibleData", &self.user_visible_data));
        assert(fields_model(r@) =~= a + b + c + d);
        let ghost f = entry_if(
            "userNonVisibleData"@,
            opt_text_value(text_model(self.user_non_visible_data)),
        );
        if let Some(h) = &self.user_non_visible_data {
            r.push(text_field("userNonVisibleData", h));
        }
        assert(fields_model(r@) =~= a + b + c + d + f);
        r
    }

    /// Reads a body back from its wire form: `None` when a required field
    /// is missing or a value has the wrong shape.
    pub fn from_wire(e: &Vec<WireField>) -> (r: Option<SignRequestData>)
        ensures
            r matches Some(d) ==> decode_sign(fields_model(e@)) == Some(d@),
            r is None ==> decode_sign(fields_model(e@)) is None,
    {
        let personal_number = match read_opt_text(find_field(e, "personalNumber")) {
            Ok(p) => p,
            Err(_) => return None,
        };
        let end_user_ip = match read_text(find_field(e, "endUserIp")) {
            Some(t) => t,
            None => return None,
        };
        let requirement = match read_opt_requirement(find_field(e, "requirement")) {
            Ok(q) => q,
            Err(_) => return None,
        };
        let user_visible_data = match read_text(find_field(e, "userVisibleData")) {
            Some(t) => t,
            None => return None,
        };
        let user_non_visible_data = match read_opt_text(find_field(e, "userNonVisibleData")) {
            Ok(p) => p,
            Err(_) => return None,
        };
        Some(
            SignRequestData {
                personal_number,
                end_user_ip,
                requirement,
                user_visible_data,
                user_non_visible_data,
            },
        )
    }
}

} // verus!
