//! Request and response shapes of the provider's wire contract, and the
//! fixed wire names of its enumerations.

use vstd::prelude::*;
use vstd::string::*;

verus! {

/// Fine-grained reason that accompanies a pending or failed status.
#[derive(Clone, Copy, Debug, PartialEq, Eq, Structural)]
pub enum HintCode {
    PendingOutstandingTransaction,
    PendingNoClient,
    PendingStarted,
    PendingUserSign,
    FailedExpiredTransaction,
    FailedCertificateErr,
    FailedUserCancel,
    FailedCancelled,
    FailedStartFailed,
    Unknown,
}

impl HintCode {
    /// The wire value of a hint code; `Unknown` stands for every value
    /// outside the known set and has no wire value of its own.
    pub open spec fn spec_wire_name(self) -> Option<Seq<char>> {
        match self {
            HintCode::PendingOutstandingTransaction => Some("outstandingTransaction"@),
            HintCode::PendingNoClient => Some("noClient"@),
            HintCode::PendingStarted => Some("started"@),
            HintCode::PendingUserSign => Some("userSign"@),
            HintCode::FailedExpiredTransaction => Some("expiredTransaction"@),
            HintCode::FailedCertificateErr => Some("certificateErr"@),
            HintCode::FailedUserCancel => Some("userCancel"@),
            HintCode::FailedCancelled => Some("cancelled"@),
            HintCode::FailedStartFailed => Some("startFailed"@),
            HintCode::Unknown => None,
        }
    }

    /// Decoding of a wire value: every string decodes, those outside the
    /// known set to `Unknown`.
    pub open spec fn spec_from_wire(s: Seq<char>) -> HintCode {
        if s == "outstandingTransaction"@ {
            HintCode::PendingOutstandingTransaction
        } else if s == "noClient"@ {
            HintCode::PendingNoClient
        } else if s == "started"@ {
            HintCode::PendingStarted
        } else if s == "userSign"@ {
            HintCode::PendingUserSign
        } else if s == "expiredTransaction"@ {
            HintCode::FailedExpiredTransaction
        } else if s == "certificateErr"@ {
            HintCode::FailedCertificateErr
        } else if s == "userCancel"@ {
            HintCode::FailedUserCancel
        } else if s == "cancelled"@ {
            HintCode::FailedCancelled
        } else if s == "startFailed"@ {
            HintCode::FailedStartFailed
        } else {
            HintCode::Unknown
        }
    }

    /// Whether `s` is one of the known wire values.
    pub open spec fn is_known_wire(s: Seq<char>) -> bool {
        exists|h: HintCode| h.spec_wire_name() == Some(s)
    }

    pub fn wire_name(&self) -> (r: Option<&'static str>)
        ensures
            r matches Some(n) ==> self.spec_wire_name() == Some(n@),
            r is None <==> self.spec_wire_name() is None,
    {
        match self {
            HintCode::PendingOutstandingTransaction => Some("outstandingTransaction"),
            HintCode::PendingNoClient => Some("noClient"),
            HintCode::PendingStarted => Some("started"),
            HintCode::PendingUserSign => Some("userSign"),
            HintCode::FailedExpiredTransaction => Some("expiredTransaction"),
            HintCode::FailedCertificateErr => Some("certificateErr"),
            HintCode::FailedUserCancel => Some("userCancel"),
            HintCode::FailedCancelled => Some("cancelled"),
            HintCode::FailedStartFailed => Some("startFailed"),
            HintCode::Unknown => None,
        }
    }

    pub fn from_wire(s: &str) -> (r: HintCode)
        ensures
            r == HintCode::spec_from_wire(s@),
    {
        if same_text(s, "outstandingTransaction") {
            HintCode::PendingOutstandingTransaction
        } else if same_text(s, "noClient") {
            HintCode::PendingNoClient
        } else if same_text(s, "started") {
            HintCode::PendingStarted
        } else if same_text(s, "userSign") {
            HintCode::PendingUserSign
        } else if same_text(s, "expiredTransaction") {
            HintCode::FailedExpiredTransaction
        } else if same_text(s, "certificateErr") {
            HintCode::FailedCertificateErr
        } else if same_text(s, "userCancel") {
            HintCode::FailedUserCancel
        } else if same_text(s, "cancelled") {
            HintCode::FailedCancelled
        } else if same_text(s, "startFailed") {
            HintCode::FailedStartFailed
        } else {
            HintCode::Unknown
        }
    }
}

impl HintCode {
    /// The variant's name, as shown in descriptions of a collect response.
    pub open spec fn spec_name(self) -> Seq<char> {
        match self {
            HintCode::PendingOutstandingTransaction => "PendingOutstandingTransaction"@,
            HintCode::PendingNoClient => "PendingNoClient"@,
            HintCode::PendingStarted => "PendingStarted"@,
            HintCode::PendingUserSign => "PendingUserSign"@,
            HintCode::FailedExpiredTransaction => "FailedExpiredTransaction"@,
            HintCode::FailedCertificateErr => "FailedCertificateErr"@,
            HintCode::FailedUserCancel => "FailedUserCancel"@,
            HintCode::FailedCancelled => "FailedCancelled"@,
            HintCode::FailedStartFailed => "FailedStartFailed"@,
            HintCode::Unknown => "Unknown"@,
        }
    }

    pub fn name(&self) -> (r: &'static str)
        ensures
            r@ == self.spec_name(),
    {
        match self {
            HintCode::PendingOutstandingTransaction => "PendingOutstandingTransaction",
            HintCode::PendingNoClient => "PendingNoClient",
            HintCode::PendingStarted => "PendingStarted",
            HintCode::PendingUserSign => "PendingUserSign",
            HintCode::FailedExpiredTransaction => "FailedExpiredTransaction",
            HintCode::FailedCertificateErr => "FailedCertificateErr",
            HintCode::FailedUserCancel => "FailedUserCancel",
            HintCode::FailedCancelled => "FailedCancelled",
            HintCode::FailedStartFailed => "FailedStartFailed",
            HintCode::Unknown => "Unknown",
        }
    }
}

/// State of a transaction at the provider: exactly one holds at a time.
#[derive(Clone, Copy, Debug, PartialEq, Eq, Structural)]
pub enum Status {
    Pending,
    Failed,
    Complete,
}

impl Status {
    pub open spec fn spec_wire_name(self) -> Seq<char> {
        match self {
            Status::Pending => "pending"@,
            Status::Failed => "failed"@,
            Status::Complete => "complete"@,
        }
    }

    pub open spec fn spec_from_wire(s: Seq<char>) -> Option<Status> {
        if s == "pending"@ {
            Some(Status::Pending)
        } else if s == "failed"@ {
            Some(Status::Failed)
        } else if s == "complete"@ {
            Some(Status::Complete)
        } else {
            None
        }
    }

    /// The variant's name, as shown in descriptions of a collect response.
    pub open spec fn spec_name(self) -> Seq<char> {
        match self {
            Status::Pending => "Pending"@,
            Status::Failed => "Failed"@,
            Status::Complete => "Complete"@,
        }
    }

    /// Complete and Failed end a transaction; Pending does not.
    pub open spec fn is_terminal(self) -> bool {
        !(self is Pending)
    }

    pub fn wire_name(&self) -> (r: &'static str)
        ensures
            r@ == self.spec_wire_name(),
    {
        match self {
            Status::Pending => "pending",
            Status::Failed => "failed",
            Status::Complete => "complete",
        }
    }

    pub fn from_wire(s: &str) -> (r: Option<Status>)
        ensures
            r == Status::spec_from_wire(s@),
    {
        if same_text(s, "pending") {
            Some(Status::Pending)
        } else if same_text(s, "failed") {
            Some(Status::Failed)
        } else if same_text(s, "complete") {
            Some(Status::Complete)
        } else {
            None
        }
    }

    pub fn as_str(&self) -> (r: &'static str)
        ensures
            r@ == self.spec_name(),
    {
        match self {
            Status::Pending => "Pending",
            Status::Failed => "Failed",
            Status::Complete => "Complete",
        }
    }
}

/// Class of card reader that a transaction may require.
#[derive(Clone, Copy, Debug, PartialEq, Eq, Structural)]
pub enum CardReader {
    Class1,
    Class2,
}

impl CardReader {
    pub open spec fn spec_wire_name(self) -> Seq<char> {
        match self {
            CardReader::Class1 => "class1"@,
            CardReader::Class2 => "class2"@,
        }
    }

    pub open spec fn spec_from_wire(s: Seq<char>) -> Option<CardReader> {
        if s == "class1"@ {
            Some(CardReader::Class1)
        } else if s == "class2"@ {
            Some(CardReader::Class2)
        } else {
            None
        }
    }

    pub fn wire_name(&self) -> (r: &'static str)
        ensures
            r@ == self.spec_wire_name(),
    {
        match self {
            CardReader::Class1 => "class1",
            CardReader::Class2 => "class2",
        }
    }

    pub fn from_wire(s: &str) -> (r: Option<CardReader>)
        ensures
            r == CardReader::spec_from_wire(s@),
    {
        if same_text(s, "class1") {
            Some(CardReader::Class1)
        } else if same_text(s, "class2") {
            Some(CardReader::Class2)
        } else {
            None
        }
    }
}

/// Certificate policy that a transaction may accept.
#[derive(Clone, Copy, Debug, PartialEq, Eq, Structural)]
pub enum CertificatePolicy {
    BankidOnFile,
    BankidOnSmartCard,
    BankidMobile,
    NordeaEidOnFileSmartCard,
    TestBankidOnFile,
    TestBankidOnSmartCard,
    TestBankidMobile,
    TestNordeaEidOnFileSmartCard,
    TestBankidForSomeBankidBanks,
}

impl CertificatePolicy {
    /// The policy's object identifier on the wire. The production and test
    /// Nordea policies share one identifier.
    pub open spec fn spec_wire_name(self) -> Seq<char> {
        match self {
            CertificatePolicy::BankidOnFile => "1.2.752.78.1.1"@,
            CertificatePolicy::BankidOnSmartCard => "1.2.752.78.1.2"@,
            CertificatePolicy::BankidMobile => "1.2.752.78.1.5"@,
            CertificatePolicy::NordeaEidOnFileSmartCard => "1.2.752.71.1.3"@,
            CertificatePolicy::TestBankidOnFile => "1.2.3.4.5"@,
            CertificatePolicy::TestBankidOnSmartCard => "1.2.3.4.10"@,
            CertificatePolicy::TestBankidMobile => "1.2.3.4.25"@,
            CertificatePolicy::TestNordeaEidOnFileSmartCard => "1.2.752.71.1.3"@,
            CertificatePolicy::TestBankidForSomeBankidBanks => "1.2.752.60.1.6"@,
        }
    }

    /// Decoding of an identifier; the shared Nordea identifier decodes to
    /// the production policy.
    pub open spec fn spec_from_wire(s: Seq<char>) -> Option<CertificatePolicy> {
        if s == "1.2.752.78.1.1"@ {
            Some(CertificatePolicy::BankidOnFile)
        } else if s == "1.2.752.78.1.2"@ {
            Some(CertificatePolicy::BankidOnSmartCard)
        } else if s == "1.2.752.78.1.5"@ {
            Some(CertificatePolicy::BankidMobile)
        } else if s == "1.2.752.71.1.3"@ {
            Some(CertificatePolicy::NordeaEidOnFileSmartCard)
        } else if s == "1.2.3.4.5"@ {
            Some(CertificatePolicy::TestBankidOnFile)
        } else if s == "1.2.3.4.10"@ {
            Some(CertificatePolicy::TestBankidOnSmartCard)
        } else if s == "1.2.3.4.25"@ {
            Some(CertificatePolicy::TestBankidMobile)
        } else if s == "1.2.752.60.1.6"@ {
            Some(CertificatePolicy::TestBankidForSomeBankidBanks)
        } else {
            None
        }
    }

    pub fn wire_name(&self) -> (r: &'static str)
        ensures
            r@ == self.spec_wire_name(),
    {
        match self {
            CertificatePolicy::BankidOnFile => "1.2.752.78.1.1",
            CertificatePolicy::BankidOnSmartCard => "1.2.752.78.1.2",
            CertificatePolicy::BankidMobile => "1.2.752.78.1.5",
            CertificatePolicy::NordeaEidOnFileSmartCard => "1.2.752.71.1.3",
            CertificatePolicy::TestBankidOnFile => "1.2.3.4.5",
            CertificatePolicy::TestBankidOnSmartCard => "1.2.3.4.10",
            CertificatePolicy::TestBankidMobile => "1.2.3.4.25",
            CertificatePolicy::TestNordeaEidOnFileSmartCard => "1.2.752.71.1.3",
            CertificatePolicy::TestBankidForSomeBankidBanks => "1.2.752.60.1.6",
        }
    }

    pub fn from_wire(s: &str) -> (r: Option<CertificatePolicy>)
        ensures
            r == CertificatePolicy::spec_from_wire(s@),
    {
        if same_text(s, "1.2.752.78.1.1") {
            Some(CertificatePolicy::BankidOnFile)
        } else if same_text(s, "1.2.752.78.1.2") {
            Some(CertificatePolicy::BankidOnSmartCard)
        } else if same_text(s, "1.2.752.78.1.5") {
            Some(CertificatePolicy::BankidMobile)
        } else if same_text(s, "1.2.752.71.1.3") {
            Some(CertificatePolicy::NordeaEidOnFileSmartCard)
        } else if same_text(s, "1.2.3.4.5") {
            Some(CertificatePolicy::TestBankidOnFile)
        } else if same_text(s, "1.2.3.4.10") {
            Some(CertificatePolicy::TestBankidOnSmartCard)
        } else if same_text(s, "1.2.3.4.25") {
            Some(CertificatePolicy::TestBankidMobile)
        } else if same_text(s, "1.2.752.60.1.6") {
            Some(CertificatePolicy::TestBankidForSomeBankidBanks)
        } else {
            None
        }
    }
}

/// Policy constraints on a transaction.
pub struct Requirement {
    pub card_reader: Option<CardReader>,
    pub certificate_policies: Vec<CertificatePolicy>,
    pub auto_start_token_required: Option<bool>,
    pub allow_fingerprint: Option<bool>,
}

/// Body of a start-authentication call.
pub struct AuthRequestData {
    pub personal_number: Option<String>,
    pub end_user_ip: String,
    pub requirement: Option<Requirement>,
}

impl AuthRequestData {
    /// A request without personal number that asks for a class 2 card
    /// reader, the on-file and mobile policies, and an auto-start token.
    pub fn new(end_user_ip: &str) -> (r: AuthRequestData)
        ensures
            r.personal_number is None,
            r.end_user_ip@ == end_user_ip@,
            r.requirement matches Some(q) && q.card_reader == Some(CardReader::Class2)
                && q.certificate_policies@ == seq![
                CertificatePolicy::BankidOnFile,
                CertificatePolicy::BankidMobile,
            ] && q.auto_start_token_required == Some(true) && q.allow_fingerprint is None,
    {
        AuthRequestData {
            personal_number: None,
            end_user_ip: String::from_str(end_user_ip),
            requirement: Some(
                Requirement {
                    card_reader: Some(CardReader::Class2),
                    certificate_policies: vec![
                        CertificatePolicy::BankidOnFile,
                        CertificatePolicy::BankidMobile,
                    ],
                    auto_start_token_required: Some(true),
                    allow_fingerprint: None,
                },
            ),
        }
    }

    /// A request for the given person, without requirement.
    pub fn new_with_personal_number(personal_number: String, end_user_ip: String) -> (r:
        AuthRequestData)
        ensures
            r.personal_number == Some(personal_number),
            r.end_user_ip == end_user_ip,
            r.requirement is None,
    {
        AuthRequestData {
            personal_number: Some(personal_number),
            end_user_ip: end_user_ip,
            requirement: None,
        }
    }
}

/// Body of a start-signing call; the two data fields hold base64 text.
pub struct SignRequestData {
    pub personal_number: Option<String>,
    pub end_user_ip: String,
    pub requirement: Option<Requirement>,
    pub user_visible_data: String,
    pub user_non_visible_data: Option<String>,
}

/// Answer to a start call: the order reference and, where the flow hands
/// off to an app, an auto-start token.
pub struct AuthSignResponse {
    pub auto_start_token: Option<String>,
    pub order_ref: String,
}

/// Body of a collect-status call.
pub struct CollectRequestData {
    pub order_ref: String,
}

/// The end user's identity in a completed transaction.
#[derive(Clone, Debug)]
pub struct UserData {
    pub personal_number: String,
    pub name: String,
    pub given_name: String,
    pub surname: String,
}

#[derive(Clone, Debug)]
pub struct DeviceData {
    pub ip_address: String,
}

/// Validity window of the end user's certificate.
#[derive(Clone, Debug)]
pub struct CertData {
    pub not_before: String,
    pub not_after: String,
}

/// What a completed transaction yields.
#[derive(Clone, Debug)]
pub struct CompletionData {
    pub user: UserData,
    pub device: Option<DeviceData>,
    pub cert: Option<CertData>,
    pub signature: Option<String>,
    pub ocsp_response: Option<String>,
}

/// One snapshot of a transaction's state at the provider.
#[derive(Clone, Debug)]
pub struct CollectResponse {
    pub order_ref: String,
    pub status: Status,
    pub hint_code: Option<HintCode>,
    pub completion_data: Option<CompletionData>,
}

impl CollectResponse {
    /// Completion data is present exactly when the status is Complete.
    pub open spec fn consistent(self) -> bool {
        self.completion_data is Some <==> self.status is Complete
    }

    pub fn is_consistent(&self) -> (r: bool)
        ensures
            r == self.consistent(),
    {
        match self.status {
            Status::Complete => self.completion_data.is_some(),
            _ => self.completion_data.is_none(),
        }
    }

    /// Text that names the order reference, the status and the hint code.
    pub open spec fn spec_describe(self) -> Seq<char> {
        "CollectResponse(order_ref: "@ + self.order_ref@ + " "@ + self.status.spec_name() + ")"@
            + " hint_code: "@ + match self.hint_code {
            Some(h) => h.spec_name(),
            None => "None"@,
        }
    }

    pub fn describe(&self) -> (r: String)
        ensures
            r@ == self.spec_describe(),
    {
        let mut r = String::from_str("CollectResponse(order_ref: ");
        r.append(self.order_ref.as_str());
        r.append(" ");
        r.append(self.status.as_str());
        r.append(")");
        r.append(" hint_code: ");
        match &self.hint_code {
            Some(h) => r.append(h.name()),
            None => r.append("None"),
        }
        r
    }
}

/// Decoding never fails: a wire value outside the known set of hint codes
/// decodes to `Unknown`.
pub proof fn lemma_unknown_hint_decodes(s: Seq<char>)
    requires
        !HintCode::is_known_wire(s),
    ensures
        HintCode::spec_from_wire(s) == HintCode::Unknown,
{
    let h = HintCode::spec_from_wire(s);
    if h != HintCode::Unknown {
        assert(h.spec_wire_name() == Some(s));
    }
}

/// Every known hint code decodes from its own wire value.
pub proof fn lemma_hint_code_round_trip(h: HintCode)
    requires
        h != HintCode::Unknown,
    ensures
        h.spec_wire_name() is Some,
        HintCode::spec_from_wire(h.spec_wire_name()->0) == h,
{
    reveal_strlit("outstandingTransaction");
    reveal_strlit("noClient");
    reveal_strlit("started");
    reveal_strlit("userSign");
    reveal_strlit("expiredTransaction");
    reveal_strlit("certificateErr");
    reveal_strlit("userCancel");
    reveal_strlit("cancelled");
    reveal_strlit("startFailed");
    assert("outstandingTransaction"@.len() == 22);
    assert("noClient"@.len() == 8 && "noClient"@[0] == 'n');
    assert("started"@.len() == 7);
    assert("userSign"@.len() == 8 && "userSign"@[0] == 'u');
    assert("expiredTransaction"@.len() == 18);
    assert("certificateErr"@.len() == 14);
    assert("userCancel"@.len() == 10);
    assert("cancelled"@.len() == 9);
    assert("startFailed"@.len() == 11);
}

/// Whether two strings hold the same characters.
pub fn same_text(a: &str, b: &str) -> (r: bool)
    ensures
        r == (a@ == b@),
{
    let x = String::from_str(a);
    let y = String::from_str(b);
    x == y
}

} // verus!
