//! Client-side core of a LoRaWAN network-identity configuration service:
//! fixed-width hexadecimal identifiers, device-address ranges and their
//! decomposition into power-of-two aligned subnet blocks, and the canonical
//! signing protocol for mutating requests.

use vstd::prelude::*;

pub mod cmds;
pub mod hex_field;
pub mod region;
pub mod requests;
pub mod signing;
pub mod subnet;
pub mod wire;

verus! {

/// The failures the library itself can produce.  Transport failures belong to
/// the surrounding (unverified) plumbing and never originate here.
#[derive(Debug, Clone, PartialEq, Eq)]
pub enum Error {
    /// Hex text was rejected: wrong digit count or a non-hex character.
    Format(String),
    /// A range constructor was given `end < start`.
    InvalidRange(String),
    /// The underlying cryptographic operation failed.
    Signing(String),
}

impl Error {
    /// The failure as the tool reports it: the kind, then the context text.
    pub open spec fn spec_message(self) -> Seq<char> {
        match self {
            Error::Format(s) => "format error: "@ + s@,
            Error::InvalidRange(s) => "invalid range: "@ + s@,
            Error::Signing(s) => "signing error: "@ + s@,
        }
    }

    pub fn message(&self) -> (r: String)
        ensures
            r@ == self.spec_message(),
    {
        match self {
            Error::Format(s) => String::from_str("format error: ").concat(s.as_str()),
            Error::InvalidRange(s) => String::from_str("invalid range: ").concat(s.as_str()),
            Error::Signing(s) => String::from_str("signing error: ").concat(s.as_str()),
        }
    }
}

/// Outcome of one command, as reported to the operator.
#[derive(Debug)]
pub enum Msg {
    DryRun(String),
    Success(String),
    Error(String),
}

impl Msg {
    /// The text carried by the message, whichever kind it is.
    pub open spec fn spec_inner(self) -> Seq<char> {
        match self {
            Msg::DryRun(s) => s@,
            Msg::Success(s) => s@,
            Msg::Error(s) => s@,
        }
    }

    pub fn ok(msg: String) -> (r: Result<Self, Error>)
        ensures
            r matches Ok(m) && m == Msg::Success(msg),
    {
        Ok(Self::Success(msg))
    }

    pub fn err(msg: String) -> (r: Result<Self, Error>)
        ensures
            r matches Ok(m) && m == Msg::Error(msg),
    {
        Ok(Self::Error(msg))
    }

    pub fn dry_run(msg: String) -> (r: Result<Self, Error>)
        ensures
            r matches Ok(m) && m == Msg::DryRun(msg),
    {
        Ok(Self::DryRun(msg))
    }

    pub fn into_inner(self) -> (r: String)
        ensures
            r@ == self.spec_inner(),
    {
        match self {
            Msg::DryRun(s) => s,
            Msg::Success(s) => s,
            Msg::Error(s) => s,
        }
    }

    /// The message as the tool prints it: a marker for the kind, then the
    /// text.
    pub open spec fn spec_display(self) -> Seq<char> {
        match self {
            Msg::DryRun(s) => "== DRY RUN == (pass `--commit`)\n"@ + s@,
            Msg::Success(s) => "\u{2713} "@ + s@,
            Msg::Error(s) => "\u{2717} "@ + s@,
        }
    }

    pub fn display_text(&self) -> (r: String)
        ensures
            r@ == self.spec_display(),
    {
        match self {
            Msg::DryRun(s) => String::from_str("== DRY RUN == (pass `--commit`)\n").concat(
                s.as_str(),
            ),
            Msg::Success(s) => String::from_str("\u{2713} ").concat(s.as_str()),
            Msg::Error(s) => String::from_str("\u{2717} ").concat(s.as_str()),
        }
    }
}

/// A type with a fixed structured-text rendering: `pretty_json` returns
/// exactly the text `spec_pretty_json` describes.
pub trait PrettyJson {
    /// When the value can be rendered (its invariants hold).
    spec fn pretty_wf(&self) -> bool;

    /// The rendering, character for character.
    spec fn spec_pretty_json(&self) -> Seq<char>;

    fn pretty_json(&self) -> (r: String)
        requires
            self.pretty_wf(),
        ensures
            r@ == self.spec_pretty_json(),
    ;
}

/// A device-address range owned by a route.  Invariant: `start_addr <= end_addr`.
#[derive(Debug, Clone, PartialEq, Eq, Hash)]
pub struct DevaddrRange {
    pub route_id: String,
    pub start_addr: hex_field::HexDevAddr,
    pub end_addr: hex_field::HexDevAddr,
}

/// Mathematical value of a `DevaddrRange`.
pub ghost struct DevaddrRangeView {
    pub route_id: Seq<char>,
    pub start_addr: hex_field::HexDevAddr,
    pub end_addr: hex_field::HexDevAddr,
}

impl View for DevaddrRange {
    type V = DevaddrRangeView;

    open spec fn view(&self) -> DevaddrRangeView {
        DevaddrRangeView {
            route_id: self.route_id@,
            start_addr: self.start_addr,
            end_addr: self.end_addr,
        }
    }
}

impl DevaddrRange {
    /// A copy holding the same value.
    pub fn deep_clone(&self) -> (r: Self)
        ensures
            r@ == self@,
    {
        Self {
            route_id: self.route_id.clone(),
            start_addr: self.start_addr,
            end_addr: self.end_addr,
        }
    }

    pub open spec fn wf(self) -> bool {
        &&& self.start_addr.wf()
        &&& self.end_addr.wf()
        &&& self.start_addr.0 <= self.end_addr.0
    }

    /// Build a range; rejected exactly when `end_addr < start_addr`.
    pub fn new(
        route_id: String,
        start_addr: hex_field::HexDevAddr,
        end_addr: hex_field::HexDevAddr,
    ) -> (r: Result<Self, Error>)
        ensures
            r matches Ok(d) ==> start_addr.0 <= end_addr.0
                && d == (DevaddrRange { route_id, start_addr, end_addr }),
            r matches Err(e) ==> e is InvalidRange && end_addr.0 < start_addr.0,
    {
        if end_addr.0 < start_addr.0 {
            return Err(Error::InvalidRange(
                String::from_str("start_addr cannot be greater than end_addr"),
            ));
        }
        Ok(Self { route_id, start_addr, end_addr })
    }

    /// Number of addresses in the inclusive range.
    pub fn length(&self) -> (r: u64)
        requires
            self.wf(),
        ensures
            r == self.end_addr.0 - self.start_addr.0 + 1,
    {
        self.end_addr.0 - self.start_addr.0 + 1
    }
}

/// An application/device EUI pair owned by a route.
#[derive(Debug, Clone, PartialEq, Eq, Hash)]
pub struct Eui {
    pub route_id: String,
    pub app_eui: hex_field::HexEui,
    pub dev_eui: hex_field::HexEui,
}

/// Mathematical value of an `Eui`.
pub ghost struct EuiView {
    pub route_id: Seq<char>,
    pub app_eui: hex_field::HexEui,
    pub dev_eui: hex_field::HexEui,
}

impl View for Eui {
    type V = EuiView;

    open spec fn view(&self) -> EuiView {
        EuiView { route_id: self.route_id@, app_eui: self.app_eui, dev_eui: self.dev_eui }
    }
}

impl Eui {
    /// A copy holding the same value.
    pub fn deep_clone(&self) -> (r: Self)
        ensures
            r@ == self@,
    {
        Self {
            route_id: self.route_id.clone(),
            app_eui: self.app_eui,
            dev_eui: self.dev_eui,
        }
    }

    pub fn new(
        route_id: String,
        app_eui: hex_field::HexEui,
        dev_eui: hex_field::HexEui,
    ) -> (r: Result<Self, Error>)
        ensures
            r matches Ok(e) && e == (Eui { route_id, app_eui, dev_eui }),
    {
        Ok(Self { route_id, app_eui, dev_eui })
    }
}

/// A rule restricting which session keys are accepted for a device address
/// under an organization.
#[derive(Debug, Clone, PartialEq, Eq, Hash)]
pub struct SessionKeyFilter {
    pub oui: u64,
    pub devaddr: hex_field::HexDevAddr,
    pub session_key: String,
}

/// Mathematical value of a `SessionKeyFilter`.
pub ghost struct SessionKeyFilterView {
    pub oui: u64,
    pub devaddr: hex_field::HexDevAddr,
    pub session_key: Seq<char>,
}

impl View for SessionKeyFilter {
    type V = SessionKeyFilterView;

    open spec fn view(&self) -> SessionKeyFilterView {
        SessionKeyFilterView {
            oui: self.oui,
            devaddr: self.devaddr,
            session_key: self.session_key@,
        }
    }
}

impl SessionKeyFilter {
    /// A copy holding the same value.
    pub fn deep_clone(&self) -> (r: Self)
        ensures
            r@ == self@,
    {
        Self { oui: self.oui, devaddr: self.devaddr, session_key: self.session_key.clone() }
    }

    pub fn new(oui: u64, devaddr: hex_field::HexDevAddr, session_key: String) -> (r: Self)
        ensures
            r == (SessionKeyFilter { oui, devaddr, session_key }),
    {
        Self { oui, devaddr, session_key }
    }
}

/// An organization as the service reports it.  Keys are carried as their
/// binary form; decoding them is the cryptography collaborator's concern.
#[derive(Debug, Clone, PartialEq, Eq)]
pub struct Org {
    pub oui: u64,
    pub owner: Vec<u8>,
    pub payer: Vec<u8>,
    pub delegate_keys: Vec<Vec<u8>>,
    pub locked: bool,
}

#[derive(Debug, Clone, PartialEq, Eq)]
pub struct OrgList {
    pub orgs: Vec<Org>,
}

/// The service's answer to an organization creation or lookup: the
/// organization, its network identifier and its address allocations.
#[derive(Debug, Clone, PartialEq, Eq)]
pub struct OrgResponse {
    pub org: Org,
    pub net_id: hex_field::HexNetID,
    pub devaddr_constraints: Vec<subnet::DevaddrConstraint>,
}

} // verus!
