//! The mutating requests of the configuration service, with their
//! deterministic wire layout and signing.  Every request carries its payload,
//! a millisecond timestamp, and a signature field that is cleared before
//! serializing, so the signature covers payload and timestamp and nothing
//! else.  Batch operations sign each element independently and report, per
//! element, whether it succeeded.

use vstd::prelude::*;
use vstd::utf8::encode_utf8;

use crate::{DevaddrRange, DevaddrRangeView, Error, Eui, EuiView, SessionKeyFilter,
    SessionKeyFilterView};
use crate::hex_field::HexNetID;
use crate::signing::{signed, MsgSign};
use crate::wire::{bytes_field, put_bytes, put_record, put_repeated, put_str, put_uint,
    record_field, repeated_bytes, uint_field};

verus! {

/// Whether a batch element is being added or removed.
#[derive(Debug, Clone, Copy, PartialEq, Eq, Hash, Structural)]
pub enum Action {
    Add,
    Remove,
}

/// Wire value of an action.
pub open spec fn action_wire(a: Action) -> nat {
    match a {
        Action::Add => 0,
        Action::Remove => 1,
    }
}

/// Executable form of `action_wire`.
pub fn action_value(a: Action) -> (r: u64)
    ensures
        r == action_wire(a),
{
    match a {
        Action::Add => 0,
        Action::Remove => 1,
    }
}

/// Wire form of an embedded device-address range: route id text, then the
/// two bounds.
pub open spec fn devaddr_range_wire(d: DevaddrRangeView) -> Seq<u8> {
    bytes_field(1, encode_utf8(d.route_id)) + uint_field(2, d.start_addr.0 as nat)
        + uint_field(3, d.end_addr.0 as nat)
}

/// Serialize an embedded device-address range.
fn encode_devaddr_range(d: &DevaddrRange) -> (r: Vec<u8>)
    ensures
        r@ == devaddr_range_wire(d@),
{
    let mut buf: Vec<u8> = Vec::new();
    put_str(&mut buf, 1, d.route_id.as_str());
    put_uint(&mut buf, 2, d.start_addr.0);
    put_uint(&mut buf, 3, d.end_addr.0);
    proof {
        assert(buf@ =~= devaddr_range_wire(d@));
    }
    buf
}

/// Request to add or remove one device-address range of a route.
pub struct RouteUpdateDevaddrRangesReq {
    pub action: Action,
    pub devaddr_range: Option<DevaddrRange>,
    pub timestamp: u64,
    pub signature: Vec<u8>,
}

/// Mathematical value of a `RouteUpdateDevaddrRangesReq`.
pub ghost struct RouteUpdateDevaddrRangesReqView {
    pub action: Action,
    pub devaddr_range: Option<DevaddrRangeView>,
    pub timestamp: u64,
    pub signature: Seq<u8>,
}

impl View for RouteUpdateDevaddrRangesReq {
    type V = RouteUpdateDevaddrRangesReqView;

    open spec fn view(&self) -> RouteUpdateDevaddrRangesReqView {
        RouteUpdateDevaddrRangesReqView {
            action: self.action,
            devaddr_range: match self.devaddr_range {
                Some(d) => Some(d@),
                None => None,
            },
            timestamp: self.timestamp,
            signature: self.signature@,
        }
    }
}

impl RouteUpdateDevaddrRangesReq {
    /// A fresh request: payload and timestamp set, signature still empty.
    pub fn new(action: Action, devaddr_range: DevaddrRange, timestamp: u64) -> (r: Self)
        ensures
            r@ == (RouteUpdateDevaddrRangesReqView {
                action,
                devaddr_range: Some(devaddr_range@),
                timestamp,
                signature: Seq::empty(),
            }),
    {
        Self { action, devaddr_range: Some(devaddr_range), timestamp, signature: Vec::new() }
    }
}

impl MsgSign for RouteUpdateDevaddrRangesReq {
    open spec fn spec_signature(v: RouteUpdateDevaddrRangesReqView) -> Seq<u8> {
        v.signature
    }

    open spec fn spec_with_signature(
        v: RouteUpdateDevaddrRangesReqView,
        sig: Seq<u8>,
    ) -> RouteUpdateDevaddrRangesReqView {
        RouteUpdateDevaddrRangesReqView { signature: sig, ..v }
    }

    /// Fields in wire order: action, the embedded range, timestamp, signature.
    open spec fn spec_encoding(v: RouteUpdateDevaddrRangesReqView) -> Seq<u8> {
        uint_field(1, action_wire(v.action)) + (match v.devaddr_range {
            Some(d) => record_field(2, devaddr_range_wire(d)),
            None => Seq::empty(),
        }) + uint_field(3, v.timestamp as nat) + bytes_field(4, v.signature)
    }

    proof fn lemma_signature_field(
        v: RouteUpdateDevaddrRangesReqView,
        s1: Seq<u8>,
        s2: Seq<u8>,
    ) {
    }

    fn canonical_bytes(&self) -> (r: Vec<u8>) {
        let mut buf: Vec<u8> = Vec::new();
        put_uint(&mut buf, 1, action_value(self.action));
        match &self.devaddr_range {
            Some(d) => {
                let sub = encode_devaddr_range(d);
                put_record(&mut buf, 2, &sub);
            }
            None => {}
        }
        put_uint(&mut buf, 3, self.timestamp);
        proof {
            assert(buf@ =~= Self::spec_encoding(Self::spec_with_signature(self@, Seq::empty())));
        }
        buf
    }

    fn set_signature(&mut self, sig: Vec<u8>) {
        self.signature = sig;
    }

    fn sign(&self, keypair: &helium_crypto::Keypair) -> (r: Result<Vec<u8>, Error>) {
        let bytes = self.canonical_bytes();
        match crate::signing::crypto_sign(keypair, bytes.as_slice()) {
            Ok(sig) => Ok(sig),
            Err(text) => Err(Error::Signing(text)),
        }
    }
}

/// One element's outcome in a devaddr batch: either the signed request whose
/// payload is exactly the given range with the given action and timestamp, or
/// the signing failure for that element.
pub open spec fn devaddr_update_elem_ok(
    res: Result<RouteUpdateDevaddrRangesReq, Error>,
    d: DevaddrRangeView,
    action: Action,
    timestamp: u64,
) -> bool {
    match res {
        Ok(m) => m@ == (RouteUpdateDevaddrRangesReqView {
            action,
            devaddr_range: Some(d),
            timestamp,
            signature: m@.signature,
        }),
        Err(e) => e is Signing,
    }
}

/// Build and sign one update request per range, in order; each element is
/// signed independently and carries its own timestamp.
fn sign_devaddr_updates(
    devaddrs: &Vec<DevaddrRange>,
    action: Action,
    timestamps: &Vec<u64>,
    keypair: &helium_crypto::Keypair,
) -> (r: Vec<Result<RouteUpdateDevaddrRangesReq, Error>>)
    requires
        timestamps@.len() == devaddrs@.len(),
    ensures
        r@.len() == devaddrs@.len(),
        forall|i: int| 0 <= i < r@.len()
            ==> #[trigger] devaddr_update_elem_ok(r@[i], devaddrs@[i]@, action, timestamps@[i]),
{
    let mut out: Vec<Result<RouteUpdateDevaddrRangesReq, Error>> = Vec::new();
    let mut i: usize = 0;
    while i < devaddrs.len()
        invariant
            timestamps@.len() == devaddrs@.len(),
            0 <= i <= devaddrs@.len(),
            out@.len() == i,
            forall|k: int| 0 <= k < i
                ==> #[trigger] devaddr_update_elem_ok(
                    out@[k],
                    devaddrs@[k]@,
                    action,
                    timestamps@[k],
                ),
        decreases devaddrs@.len() - i,
    {
        let req = RouteUpdateDevaddrRangesReq::new(
            action,
            devaddrs[i].deep_clone(),
            timestamps[i],
        );
        match signed(req, keypair) {
            Ok(m) => out.push(Ok(m)),
            Err(e) => out.push(Err(e)),
        }
        i = i + 1;
    }
    out
}

/// Sign an add-request for every range, each under its own timestamp.
pub fn add_devaddrs(
    devaddrs: &Vec<DevaddrRange>,
    timestamps: &Vec<u64>,
    keypair: &helium_crypto::Keypair,
) -> (r: Vec<Result<RouteUpdateDevaddrRangesReq, Error>>)
    requires
        timestamps@.len() == devaddrs@.len(),
    ensures
        r@.len() == devaddrs@.len(),
        forall|i: int| 0 <= i < r@.len()
            ==> #[trigger] devaddr_update_elem_ok(
                r@[i],
                devaddrs@[i]@,
                Action::Add,
                timestamps@[i],
            ),
{
    sign_devaddr_updates(devaddrs, Action::Add, timestamps, keypair)
}

/// Sign a remove-request for every range, each under its own timestamp.
pub fn remove_devaddrs(
    devaddrs: &Vec<DevaddrRange>,
    timestamps: &Vec<u64>,
    keypair: &helium_crypto::Keypair,
) -> (r: Vec<Result<RouteUpdateDevaddrRangesReq, Error>>)
    requires
        timestamps@.len() == devaddrs@.len(),
    ensures
        r@.len() == devaddrs@.len(),
        forall|i: int| 0 <= i < r@.len()
            ==> #[trigger] devaddr_update_elem_ok(
                r@[i],
                devaddrs@[i]@,
                Action::Remove,
                timestamps@[i],
            ),
{
    sign_devaddr_updates(devaddrs, Action::Remove, timestamps, keypair)
}

/// Wire form of an embedded EUI pair: route id text, then the two EUIs.
pub open spec fn eui_wire(e: EuiView) -> Seq<u8> {
    bytes_field(1, encode_utf8(e.route_id)) + uint_field(2, e.app_eui.0 as nat)
        + uint_field(3, e.dev_eui.0 as nat)
}

/// Serialize an embedded EUI pair.
fn encode_eui(e: &Eui) -> (r: Vec<u8>)
    ensures
        r@ == eui_wire(e@),
{
    let mut buf: Vec<u8> = Vec::new();
    put_str(&mut buf, 1, e.route_id.as_str());
    put_uint(&mut buf, 2, e.app_eui.0);
    put_uint(&mut buf, 3, e.dev_eui.0);
    proof {
        assert(buf@ =~= eui_wire(e@));
    }
    buf
}

/// Request to add or remove one EUI pair of a route.
pub struct RouteUpdateEuisReq {
    pub action: Action,
    pub eui_pair: Option<Eui>,
    pub timestamp: u64,
    pub signature: Vec<u8>,
}

/// Mathematical value of a `RouteUpdateEuisReq`.
pub ghost struct RouteUpdateEuisReqView {
    pub action: Action,
    pub eui_pair: Option<EuiView>,
    pub timestamp: u64,
    pub signature: Seq<u8>,
}

impl View for RouteUpdateEuisReq {
    type V = RouteUpdateEuisReqView;

    open spec fn view(&self) -> RouteUpdateEuisReqView {
        RouteUpdateEuisReqView {
            action: self.action,
            eui_pair: match self.eui_pair {
                Some(e) => Some(e@),
                None => None,
            },
            timestamp: self.timestamp,
            signature: self.signature@,
        }
    }
}

impl RouteUpdateEuisReq {
    /// A fresh request: payload and timestamp set, signature still empty.
    pub fn new(action: Action, eui_pair: Eui, timestamp: u64) -> (r: Self)
        ensures
            r@ == (RouteUpdateEuisReqView {
                action,
                eui_pair: Some(eui_pair@),
                timestamp,
                signature: Seq::empty(),
            }),
    {
        Self { action, eui_pair: Some(eui_pair), timestamp, signature: Vec::new() }
    }
}

impl MsgSign for RouteUpdateEuisReq {
    open spec fn spec_signature(v: RouteUpdateEuisReqView) -> Seq<u8> {
        v.signature
    }

    open spec fn spec_with_signature(
        v: RouteUpdateEuisReqView,
        sig: Seq<u8>,
    ) -> RouteUpdateEuisReqView {
        RouteUpdateEuisReqView { signature: sig, ..v }
    }

    /// Fields in wire order: action, the embedded pair, timestamp, signature.
    open spec fn spec_encoding(v: RouteUpdateEuisReqView) -> Seq<u8> {
        uint_field(1, action_wire(v.action)) + (match v.eui_pair {
            Some(e) => record_field(2, eui_wire(e)),
            None => Seq::empty(),
        }) + uint_field(3, v.timestamp as nat) + bytes_field(4, v.signature)
    }

    proof fn lemma_signature_field(v: RouteUpdateEuisReqView, s1: Seq<u8>, s2: Seq<u8>) {
    }

    fn canonical_bytes(&self) -> (r: Vec<u8>) {
        let mut buf: Vec<u8> = Vec::new();
        put_uint(&mut buf, 1, action_value(self.action));
        match &self.eui_pair {
            Some(e) => {
                let sub = encode_eui(e);
                put_record(&mut buf, 2, &sub);
            }
            None => {}
        }
        put_uint(&mut buf, 3, self.timestamp);
        proof {
            assert(buf@ =~= Self::spec_encoding(Self::spec_with_signature(self@, Seq::empty())));
        }
        buf
    }

    fn set_signature(&mut self, sig: Vec<u8>) {
        self.signature = sig;
    }

    fn sign(&self, keypair: &helium_crypto::Keypair) -> (r: Result<Vec<u8>, Error>) {
        let bytes = self.canonical_bytes();
        match crate::signing::crypto_sign(keypair, bytes.as_slice()) {
            Ok(sig) => Ok(sig),
            Err(text) => Err(Error::Signing(text)),
        }
    }
}

/// One element's outcome in an EUI batch.
pub open spec fn eui_update_elem_ok(
    res: Result<RouteUpdateEuisReq, Error>,
    e: EuiView,
    action: Action,
    timestamp: u64,
) -> bool {
    match res {
        Ok(m) => m@ == (RouteUpdateEuisReqView {
            action,
            eui_pair: Some(e),
            timestamp,
            signature: m@.signature,
        }),
        Err(err) => err is Signing,
    }
}

/// Build and sign one update request per EUI pair, in order; each element is
/// signed independently and carries its own timestamp.
fn sign_eui_updates(
    euis: &Vec<Eui>,
    action: Action,
    timestamps: &Vec<u64>,
    keypair: &helium_crypto::Keypair,
) -> (r: Vec<Result<RouteUpdateEuisReq, Error>>)
    requires
        timestamps@.len() == euis@.len(),
    ensures
        r@.len() == euis@.len(),
        forall|i: int| 0 <= i < r@.len()
            ==> #[trigger] eui_update_elem_ok(r@[i], euis@[i]@, action, timestamps@[i]),
{
    let mut out: Vec<Result<RouteUpdateEuisReq, Error>> = Vec::new();
    let mut i: usize = 0;
    while i < euis.len()
        invariant
            timestamps@.len() == euis@.len(),
            0 <= i <= euis@.len(),
            out@.len() == i,
            forall|k: int| 0 <= k < i
                ==> #[trigger] eui_update_elem_ok(out@[k], euis@[k]@, action, timestamps@[k]),
        decreases euis@.len() - i,
    {
        let req = RouteUpdateEuisReq::new(action, euis[i].deep_clone(), timestamps[i]);
        match signed(req, keypair) {
            Ok(m) => out.push(Ok(m)),
            Err(e) => out.push(Err(e)),
        }
        i = i + 1;
    }
    out
}

/// Sign an add-request for every EUI pair, each under its own timestamp.
pub fn add_euis(
    euis: &Vec<Eui>,
    timestamps: &Vec<u64>,
    keypair: &helium_crypto::Keypair,
) -> (r: Vec<Result<RouteUpdateEuisReq, Error>>)
    requires
        timestamps@.len() == euis@.len(),
    ensures
        r@.len() == euis@.len(),
        forall|i: int| 0 <= i < r@.len()
            ==> #[trigger] eui_update_elem_ok(r@[i], euis@[i]@, Action::Add, timestamps@[i]),
{
    sign_eui_updates(euis, Action::Add, timestamps, keypair)
}

/// Sign a remove-request for every EUI pair, each under its own timestamp.
pub fn remove_euis(
    euis: &Vec<Eui>,
    timestamps: &Vec<u64>,
    keypair: &helium_crypto::Keypair,
) -> (r: Vec<Result<RouteUpdateEuisReq, Error>>)
    requires
        timestamps@.len() == euis@.len(),
    ensures
        r@.len() == euis@.len(),
        forall|i: int| 0 <= i < r@.len()
            ==> #[trigger] eui_update_elem_ok(r@[i], euis@[i]@, Action::Remove, timestamps@[i]),
{
    sign_eui_updates(euis, Action::Remove, timestamps, keypair)
}

/// Wire form of an embedded session-key filter: organization, device
/// address, then the session key text.
pub open spec fn session_key_filter_wire(f: SessionKeyFilterView) -> Seq<u8> {
    uint_field(1, f.oui as nat) + uint_field(2, f.devaddr.0 as nat)
        + bytes_field(3, encode_utf8(f.session_key))
}

/// Serialize an embedded session-key filter.
fn encode_session_key_filter(f: &SessionKeyFilter) -> (r: Vec<u8>)
    ensures
        r@ == session_key_filter_wire(f@),
{
    let mut buf: Vec<u8> = Vec::new();
    put_uint(&mut buf, 1, f.oui);
    put_uint(&mut buf, 2, f.devaddr.0);
    put_str(&mut buf, 3, f.session_key.as_str());
    proof {
        assert(buf@ =~= session_key_filter_wire(f@));
    }
    buf
}

/// Request to add or remove one session-key filter.
pub struct SessionKeyFilterUpdateReq {
    pub action: Action,
    pub filter: Option<SessionKeyFilter>,
    pub timestamp: u64,
    pub signature: Vec<u8>,
}

/// Mathematical value of a `SessionKeyFilterUpdateReq`.
pub ghost struct SessionKeyFilterUpdateReqView {
    pub action: Action,
    pub filter: Option<SessionKeyFilterView>,
    pub timestamp: u64,
    pub signature: Seq<u8>,
}

impl View for SessionKeyFilterUpdateReq {
    type V = SessionKeyFilterUpdateReqView;

    open spec fn view(&self) -> SessionKeyFilterUpdateReqView {
        SessionKeyFilterUpdateReqView {
            action: self.action,
            filter: match self.filter {
                Some(f) => Some(f@),
                None => None,
            },
            timestamp: self.timestamp,
            signature: self.signature@,
        }
    }
}

impl SessionKeyFilterUpdateReq {
    /// A fresh request: payload and timestamp set, signature still empty.
    pub fn new(action: Action, filter: SessionKeyFilter, timestamp: u64) -> (r: Self)
        ensures
            r@ == (SessionKeyFilterUpdateReqView {
                action,
                filter: Some(filter@),
                timestamp,
                signature: Seq::empty(),
            }),
    {
        Self { action, filter: Some(filter), timestamp, signature: Vec::new() }
    }
}

impl MsgSign for SessionKeyFilterUpdateReq {
    open spec fn spec_signature(v: SessionKeyFilterUpdateReqView) -> Seq<u8> {
        v.signature
    }

    open spec fn spec_with_signature(
        v: SessionKeyFilterUpdateReqView,
        sig: Seq<u8>,
    ) -> SessionKeyFilterUpdateReqView {
        SessionKeyFilterUpdateReqView { signature: sig, ..v }
    }

    /// Fields in wire order: action, the embedded filter, timestamp,
    /// signature.
    open spec fn spec_encoding(v: SessionKeyFilterUpdateReqView) -> Seq<u8> {
        uint_field(1, action_wire(v.action)) + (match v.filter {
            Some(f) => record_field(2, session_key_filter_wire(f)),
            None => Seq::empty(),
        }) + uint_field(3, v.timestamp as nat) + bytes_field(4, v.signature)
    }

    proof fn lemma_signature_field(
        v: SessionKeyFilterUpdateReqView,
        s1: Seq<u8>,
        s2: Seq<u8>,
    ) {
    }

    fn canonical_bytes(&self) -> (r: Vec<u8>) {
        let mut buf: Vec<u8> = Vec::new();
        put_uint(&mut buf, 1, action_value(self.action));
        match &self.filter {
            Some(f) => {
                let sub = encode_session_key_filter(f);
                put_record(&mut buf, 2, &sub);
            }
            None => {}
        }
        put_uint(&mut buf, 3, self.timestamp);
        proof {
            assert(buf@ =~= Self::spec_encoding(Self::spec_with_signature(self@, Seq::empty())));
        }
        buf
    }

    fn set_signature(&mut self, sig: Vec<u8>) {
        self.signature = sig;
    }

    fn sign(&self, keypair: &helium_crypto::Keypair) -> (r: Result<Vec<u8>, Error>) {
        let bytes = self.canonical_bytes();
        match crate::signing::crypto_sign(keypair, bytes.as_slice()) {
            Ok(sig) => Ok(sig),
            Err(text) => Err(Error::Signing(text)),
        }
    }
}

/// One element's outcome in a filter batch.
pub open spec fn filter_update_elem_ok(
    res: Result<SessionKeyFilterUpdateReq, Error>,
    f: SessionKeyFilterView,
    action: Action,
    timestamp: u64,
) -> bool {
    match res {
        Ok(m) => m@ == (SessionKeyFilterUpdateReqView {
            action,
            filter: Some(f),
            timestamp,
            signature: m@.signature,
        }),
        Err(err) => err is Signing,
    }
}

/// Build and sign one update request per filter, in order; each element is
/// signed independently and carries its own timestamp.
fn sign_filter_updates(
    filters: &Vec<SessionKeyFilter>,
    action: Action,
    timestamps: &Vec<u64>,
    keypair: &helium_crypto::Keypair,
) -> (r: Vec<Result<SessionKeyFilterUpdateReq, Error>>)
    requires
        timestamps@.len() == filters@.len(),
    ensures
        r@.len() == filters@.len(),
        forall|i: int| 0 <= i < r@.len()
            ==> #[trigger] filter_update_elem_ok(r@[i], filters@[i]@, action, timestamps@[i]),
{
    let mut out: Vec<Result<SessionKeyFilterUpdateReq, Error>> = Vec::new();
    let mut i: usize = 0;
    while i < filters.len()
        invariant
            timestamps@.len() == filters@.len(),
            0 <= i <= filters@.len(),
            out@.len() == i,
            forall|k: int| 0 <= k < i
                ==> #[trigger] filter_update_elem_ok(
                    out@[k],
                    filters@[k]@,
                    action,
                    timestamps@[k],
                ),
        decreases filters@.len() - i,
    {
        let req = SessionKeyFilterUpdateReq::new(
            action,
            filters[i].deep_clone(),
            timestamps[i],
        );
        match signed(req, keypair) {
            Ok(m) => out.push(Ok(m)),
            Err(e) => out.push(Err(e)),
        }
        i = i + 1;
    }
    out
}

/// Sign an add-request for every filter, each under its own timestamp.
pub fn add_filters(
    filters: &Vec<SessionKeyFilter>,
    timestamps: &Vec<u64>,
    keypair: &helium_crypto::Keypair,
) -> (r: Vec<Result<SessionKeyFilterUpdateReq, Error>>)
    requires
        timestamps@.len() == filters@.len(),
    ensures
        r@.len() == filters@.len(),
        forall|i: int| 0 <= i < r@.len()
            ==> #[trigger] filter_update_elem_ok(r@[i], filters@[i]@, Action::Add, timestamps@[i]),
{
    sign_filter_updates(filters, Action::Add, timestamps, keypair)
}

/// Sign a remove-request for every filter, each under its own timestamp.
pub fn remove_filters(
    filters: &Vec<SessionKeyFilter>,
    timestamps: &Vec<u64>,
    keypair: &helium_crypto::Keypair,
) -> (r: Vec<Result<SessionKeyFilterUpdateReq, Error>>)
    requires
        timestamps@.len() == filters@.len(),
    ensures
        r@.len() == filters@.len(),
        forall|i: int| 0 <= i < r@.len()
            ==> #[trigger] filter_update_elem_ok(
                r@[i],
                filters@[i]@,
                Action::Remove,
                timestamps@[i],
            ),
{
    sign_filter_updates(filters, Action::Remove, timestamps, keypair)
}

/// A request scoped to one route: the read and delete operations on a route,
/// its EUI pairs, and its device-address ranges all carry exactly the route
/// id, a timestamp and a signature.
pub struct RouteScopedReq {
    pub route_id: String,
    pub timestamp: u64,
    pub signature: Vec<u8>,
}

/// Mathematical value of a `RouteScopedReq`.
pub ghost struct RouteScopedReqView {
    pub route_id: Seq<char>,
    pub timestamp: u64,
    pub signature: Seq<u8>,
}

impl View for RouteScopedReq {
    type V = RouteScopedReqView;

    open spec fn view(&self) -> RouteScopedReqView {
        RouteScopedReqView {
            route_id: self.route_id@,
            timestamp: self.timestamp,
            signature: self.signature@,
        }
    }
}

impl RouteScopedReq {
    /// A fresh request: payload and timestamp set, signature still empty.
    pub fn new(route_id: String, timestamp: u64) -> (r: Self)
        ensures
            r@ == (RouteScopedReqView { route_id: route_id@, timestamp, signature: Seq::empty() }),
    {
        Self { route_id, timestamp, signature: Vec::new() }
    }
}

impl MsgSign for RouteScopedReq {
    open spec fn spec_signature(v: RouteScopedReqView) -> Seq<u8> {
        v.signature
    }

    open spec fn spec_with_signature(v: RouteScopedReqView, sig: Seq<u8>) -> RouteScopedReqView {
        RouteScopedReqView { signature: sig, ..v }
    }

    /// Fields in wire order: route id, timestamp, signature.
    open spec fn spec_encoding(v: RouteScopedReqView) -> Seq<u8> {
        bytes_field(1, encode_utf8(v.route_id)) + uint_field(2, v.timestamp as nat)
            + bytes_field(3, v.signature)
    }

    proof fn lemma_signature_field(v: RouteScopedReqView, s1: Seq<u8>, s2: Seq<u8>) {
    }

    fn canonical_bytes(&self) -> (r: Vec<u8>) {
        let mut buf: Vec<u8> = Vec::new();
        put_str(&mut buf, 1, self.route_id.as_str());
        put_uint(&mut buf, 2, self.timestamp);
        proof {
            assert(buf@ =~= Self::spec_encoding(Self::spec_with_signature(self@, Seq::empty())));
        }
        buf
    }

    fn set_signature(&mut self, sig: Vec<u8>) {
        self.signature = sig;
    }

    fn sign(&self, keypair: &helium_crypto::Keypair) -> (r: Result<Vec<u8>, Error>) {
        let bytes = self.canonical_bytes();
        match crate::signing::crypto_sign(keypair, bytes.as_slice()) {
            Ok(sig) => Ok(sig),
            Err(text) => Err(Error::Signing(text)),
        }
    }
}

/// Build and sign a route-scoped request.
fn sign_route_scoped(route_id: &str, timestamp: u64, keypair: &helium_crypto::Keypair) -> (r:
    Result<RouteScopedReq, Error>)
    ensures
        r matches Ok(m) ==> m@ == (RouteScopedReqView {
            route_id: route_id@,
            timestamp,
            signature: m@.signature,
        }),
        r matches Err(e) ==> e is Signing,
{
    let req = RouteScopedReq::new(route_id.to_owned(), timestamp);
    signed(req, keypair)
}

/// Signed request to fetch one route.
pub fn get_route_req(id: &str, timestamp: u64, keypair: &helium_crypto::Keypair) -> (r: Result<
    RouteScopedReq,
    Error,
>)
    ensures
        r matches Ok(m) ==> m@ == (RouteScopedReqView {
            route_id: id@,
            timestamp,
            signature: m@.signature,
        }),
        r matches Err(e) ==> e is Signing,
{
    sign_route_scoped(id, timestamp, keypair)
}

/// Signed request to delete one route.
pub fn delete_route_req(id: &str, timestamp: u64, keypair: &helium_crypto::Keypair) -> (r: Result<
    RouteScopedReq,
    Error,
>)
    ensures
        r matches Ok(m) ==> m@ == (RouteScopedReqView {
            route_id: id@,
            timestamp,
            signature: m@.signature,
        }),
        r matches Err(e) ==> e is Signing,
{
    sign_route_scoped(id, timestamp, keypair)
}

/// Signed request to stream a route's EUI pairs.
pub fn get_euis_req(route_id: &str, timestamp: u64, keypair: &helium_crypto::Keypair) -> (r:
    Result<RouteScopedReq, Error>)
    ensures
        r matches Ok(m) ==> m@ == (RouteScopedReqView {
            route_id: route_id@,
            timestamp,
            signature: m@.signature,
        }),
        r matches Err(e) ==> e is Signing,
{
    sign_route_scoped(route_id, timestamp, keypair)
}

/// Signed request to remove every EUI pair of a route.
pub fn delete_euis_req(route_id: &str, timestamp: u64, keypair: &helium_crypto::Keypair) -> (r:
    Result<RouteScopedReq, Error>)
    ensures
        r matches Ok(m) ==> m@ == (RouteScopedReqView {
            route_id: route_id@,
            timestamp,
            signature: m@.signature,
        }),
        r matches Err(e) ==> e is Signing,
{
    sign_route_scoped(route_id, timestamp, keypair)
}

/// Signed request to stream a route's device-address ranges.
pub fn get_devaddrs_req(route_id: &str, timestamp: u64, keypair: &helium_crypto::Keypair) -> (r:
    Result<RouteScopedReq, Error>)
    ensures
        r matches Ok(m) ==> m@ == (RouteScopedReqView {
            route_id: route_id@,
            timestamp,
            signature: m@.signature,
        }),
        r matches Err(e) ==> e is Signing,
{
    sign_route_scoped(route_id, timestamp, keypair)
}

/// Signed request to remove every device-address range of a route.
pub fn delete_devaddrs_req(route_id: &str, timestamp: u64, keypair: &helium_crypto::Keypair) -> (r:
    Result<RouteScopedReq, Error>)
    ensures
        r matches Ok(m) ==> m@ == (RouteScopedReqView {
            route_id: route_id@,
            timestamp,
            signature: m@.signature,
        }),
        r matches Err(e) ==> e is Signing,
{
    sign_route_scoped(route_id, timestamp, keypair)
}

/// A request scoped to one organization: listing routes or session-key
/// filters carries exactly the organization, a timestamp and a signature.
pub struct OuiScopedReq {
    pub oui: u64,
    pub timestamp: u64,
    pub signature: Vec<u8>,
}

/// Mathematical value of an `OuiScopedReq`.
pub ghost struct OuiScopedReqView {
    pub oui: u64,
    pub timestamp: u64,
    pub signature: Seq<u8>,
}

impl View for OuiScopedReq {
    type V = OuiScopedReqView;

    open spec fn view(&self) -> OuiScopedReqView {
        OuiScopedReqView { oui: self.oui, timestamp: self.timestamp, signature: self.signature@ }
    }
}

impl OuiScopedReq {
    /// A fresh request: payload and timestamp set, signature still empty.
    pub fn new(oui: u64, timestamp: u64) -> (r: Self)
        ensures
            r@ == (OuiScopedReqView { oui, timestamp, signature: Seq::empty() }),
    {
        Self { oui, timestamp, signature: Vec::new() }
    }
}

impl MsgSign for OuiScopedReq {
    open spec fn spec_signature(v: OuiScopedReqView) -> Seq<u8> {
        v.signature
    }

    open spec fn spec_with_signature(v: OuiScopedReqView, sig: Seq<u8>) -> OuiScopedReqView {
        OuiScopedReqView { signature: sig, ..v }
    }

    /// Fields in wire order: organization, timestamp, signature.
    open spec fn spec_encoding(v: OuiScopedReqView) -> Seq<u8> {
        uint_field(1, v.oui as nat) + uint_field(2, v.timestamp as nat)
            + bytes_field(3, v.signature)
    }

    proof fn lemma_signature_field(v: OuiScopedReqView, s1: Seq<u8>, s2: Seq<u8>) {
    }

    fn canonical_bytes(&self) -> (r: Vec<u8>) {
        let mut buf: Vec<u8> = Vec::new();
        put_uint(&mut buf, 1, self.oui);
        put_uint(&mut buf, 2, self.timestamp);
        proof {
            assert(buf@ =~= Self::spec_encoding(Self::spec_with_signature(self@, Seq::empty())));
        }
        buf
    }

    fn set_signature(&mut self, sig: Vec<u8>) {
        self.signature = sig;
    }

    fn sign(&self, keypair: &helium_crypto::Keypair) -> (r: Result<Vec<u8>, Error>) {
        let bytes = self.canonical_bytes();
        match crate::signing::crypto_sign(keypair, bytes.as_slice()) {
            Ok(sig) => Ok(sig),
            Err(text) => Err(Error::Signing(text)),
        }
    }
}

/// Signed request to list an organization's routes.
pub fn list_routes_req(oui: u64, timestamp: u64, keypair: &helium_crypto::Keypair) -> (r: Result<
    OuiScopedReq,
    Error,
>)
    ensures
        r matches Ok(m) ==> m@ == (OuiScopedReqView { oui, timestamp, signature: m@.signature }),
        r matches Err(e) ==> e is Signing,
{
    signed(OuiScopedReq::new(oui, timestamp), keypair)
}

/// Signed request to list an organization's session-key filters.
pub fn list_filters_req(oui: u64, timestamp: u64, keypair: &helium_crypto::Keypair) -> (r: Result<
    OuiScopedReq,
    Error,
>)
    ensures
        r matches Ok(m) ==> m@ == (OuiScopedReqView { oui, timestamp, signature: m@.signature }),
        r matches Err(e) ==> e is Signing,
{
    signed(OuiScopedReq::new(oui, timestamp), keypair)
}

/// Request for the session-key filters of one device address under an
/// organization.
pub struct SessionKeyFilterGetReq {
    pub oui: u64,
    pub devaddr: crate::hex_field::HexDevAddr,
    pub timestamp: u64,
    pub signature: Vec<u8>,
}

/// Mathematical value of a `SessionKeyFilterGetReq`.
pub ghost struct SessionKeyFilterGetReqView {
    pub oui: u64,
    pub devaddr: crate::hex_field::HexDevAddr,
    pub timestamp: u64,
    pub signature: Seq<u8>,
}

impl View for SessionKeyFilterGetReq {
    type V = SessionKeyFilterGetReqView;

    open spec fn view(&self) -> SessionKeyFilterGetReqView {
        SessionKeyFilterGetReqView {
            oui: self.oui,
            devaddr: self.devaddr,
            timestamp: self.timestamp,
            signature: self.signature@,
        }
    }
}

impl SessionKeyFilterGetReq {
    /// A fresh request: payload and timestamp set, signature still empty.
    pub fn new(oui: u64, devaddr: crate::hex_field::HexDevAddr, timestamp: u64) -> (r: Self)
        ensures
            r@ == (SessionKeyFilterGetReqView { oui, devaddr, timestamp, signature: Seq::empty() }),
    {
        Self { oui, devaddr, timestamp, signature: Vec::new() }
    }
}

impl MsgSign for SessionKeyFilterGetReq {
    open spec fn spec_signature(v: SessionKeyFilterGetReqView) -> Seq<u8> {
        v.signature
    }

    open spec fn spec_with_signature(
        v: SessionKeyFilterGetReqView,
        sig: Seq<u8>,
    ) -> SessionKeyFilterGetReqView {
        SessionKeyFilterGetReqView { signature: sig, ..v }
    }

    /// Fields in wire order: organization, device address, timestamp,
    /// signature.
    open spec fn spec_encoding(v: SessionKeyFilterGetReqView) -> Seq<u8> {
        uint_field(1, v.oui as nat) + uint_field(2, v.devaddr.0 as nat)
            + uint_field(3, v.timestamp as nat) + bytes_field(4, v.signature)
    }

    proof fn lemma_signature_field(v: SessionKeyFilterGetReqView, s1: Seq<u8>, s2: Seq<u8>) {
    }

    fn canonical_bytes(&self) -> (r: Vec<u8>) {
        let mut buf: Vec<u8> = Vec::new();
        put_uint(&mut buf, 1, self.oui);
        put_uint(&mut buf, 2, self.devaddr.0);
        put_uint(&mut buf, 3, self.timestamp);
        proof {
            assert(buf@ =~= Self::spec_encoding(Self::spec_with_signature(self@, Seq::empty())));
        }
        buf
    }

    fn set_signature(&mut self, sig: Vec<u8>) {
        self.signature = sig;
    }

    fn sign(&self, keypair: &helium_crypto::Keypair) -> (r: Result<Vec<u8>, Error>) {
        let bytes = self.canonical_bytes();
        match crate::signing::crypto_sign(keypair, bytes.as_slice()) {
            Ok(sig) => Ok(sig),
            Err(text) => Err(Error::Signing(text)),
        }
    }
}

/// Signed request for one device address's session-key filters.
pub fn get_filters_req(
    oui: u64,
    devaddr: crate::hex_field::HexDevAddr,
    timestamp: u64,
    keypair: &helium_crypto::Keypair,
) -> (r: Result<SessionKeyFilterGetReq, Error>)
    ensures
        r matches Ok(m) ==> m@ == (SessionKeyFilterGetReqView {
            oui,
            devaddr,
            timestamp,
            signature: m@.signature,
        }),
        r matches Err(e) ==> e is Signing,
{
    signed(SessionKeyFilterGetReq::new(oui, devaddr, timestamp), keypair)
}

/// Request to create an organization inside the shared address pool, asking
/// for a number of device addresses.
pub struct OrgCreateHeliumReq {
    pub owner: Vec<u8>,
    pub payer: Vec<u8>,
    pub devaddrs: u64,
    pub timestamp: u64,
    pub delegate_keys: Vec<Vec<u8>>,
    pub signature: Vec<u8>,
}

/// Mathematical value of an `OrgCreateHeliumReq`.
pub ghost struct OrgCreateHeliumReqView {
    pub owner: Seq<u8>,
    pub payer: Seq<u8>,
    pub devaddrs: u64,
    pub timestamp: u64,
    pub delegate_keys: Seq<Seq<u8>>,
    pub signature: Seq<u8>,
}

impl View for OrgCreateHeliumReq {
    type V = OrgCreateHeliumReqView;

    open spec fn view(&self) -> OrgCreateHeliumReqView {
        OrgCreateHeliumReqView {
            owner: self.owner@,
            payer: self.payer@,
            devaddrs: self.devaddrs,
            timestamp: self.timestamp,
            delegate_keys: self.delegate_keys.deep_view(),
            signature: self.signature@,
        }
    }
}

impl OrgCreateHeliumReq {
    /// A fresh request: payload and timestamp set, no delegate keys,
    /// signature still empty.
    pub fn new(owner: Vec<u8>, payer: Vec<u8>, devaddrs: u64, timestamp: u64) -> (r: Self)
        ensures
            r@ == (OrgCreateHeliumReqView {
                owner: owner@,
                payer: payer@,
                devaddrs,
                timestamp,
                delegate_keys: Seq::empty(),
                signature: Seq::empty(),
            }),
    {
        let r = Self {
            owner,
            payer,
            devaddrs,
            timestamp,
            delegate_keys: Vec::new(),
            signature: Vec::new(),
        };
        proof {
            assert(r.delegate_keys.deep_view() =~= Seq::<Seq<u8>>::empty());
        }
        r
    }
}

impl MsgSign for OrgCreateHeliumReq {
    open spec fn spec_signature(v: OrgCreateHeliumReqView) -> Seq<u8> {
        v.signature
    }

    open spec fn spec_with_signature(
        v: OrgCreateHeliumReqView,
        sig: Seq<u8>,
    ) -> OrgCreateHeliumReqView {
        OrgCreateHeliumReqView { signature: sig, ..v }
    }

    /// Fields in wire order: owner key, payer key, requested address count,
    /// timestamp, delegate keys, signature.
    open spec fn spec_encoding(v: OrgCreateHeliumReqView) -> Seq<u8> {
        bytes_field(1, v.owner) + bytes_field(2, v.payer) + uint_field(3, v.devaddrs as nat)
            + uint_field(4, v.timestamp as nat) + repeated_bytes(5, v.delegate_keys)
            + bytes_field(6, v.signature)
    }

    proof fn lemma_signature_field(v: OrgCreateHeliumReqView, s1: Seq<u8>, s2: Seq<u8>) {
    }

    fn canonical_bytes(&self) -> (r: Vec<u8>) {
        let mut buf: Vec<u8> = Vec::new();
        put_bytes(&mut buf, 1, self.owner.as_slice());
        put_bytes(&mut buf, 2, self.payer.as_slice());
        put_uint(&mut buf, 3, self.devaddrs);
        put_uint(&mut buf, 4, self.timestamp);
        put_repeated(&mut buf, 5, &self.delegate_keys);
        proof {
            assert(buf@ =~= Self::spec_encoding(Self::spec_with_signature(self@, Seq::empty())));
        }
        buf
    }

    fn set_signature(&mut self, sig: Vec<u8>) {
        self.signature = sig;
    }

    fn sign(&self, keypair: &helium_crypto::Keypair) -> (r: Result<Vec<u8>, Error>) {
        let bytes = self.canonical_bytes();
        match crate::signing::crypto_sign(keypair, bytes.as_slice()) {
            Ok(sig) => Ok(sig),
            Err(text) => Err(Error::Signing(text)),
        }
    }
}

/// Signed request to create an organization in the shared pool.
pub fn create_helium_req(
    owner: Vec<u8>,
    payer: Vec<u8>,
    devaddr_count: u64,
    timestamp: u64,
    keypair: &helium_crypto::Keypair,
) -> (r: Result<OrgCreateHeliumReq, Error>)
    ensures
        r matches Ok(m) ==> m@ == (OrgCreateHeliumReqView {
            owner: owner@,
            payer: payer@,
            devaddrs: devaddr_count,
            timestamp,
            delegate_keys: Seq::empty(),
            signature: m@.signature,
        }),
        r matches Err(e) ==> e is Signing,
{
    signed(OrgCreateHeliumReq::new(owner, payer, devaddr_count, timestamp), keypair)
}

/// Request to create a roaming organization with its own network identifier.
pub struct OrgCreateRoamerReq {
    pub owner: Vec<u8>,
    pub payer: Vec<u8>,
    pub net_id: HexNetID,
    pub timestamp: u64,
    pub delegate_keys: Vec<Vec<u8>>,
    pub signature: Vec<u8>,
}

/// Mathematical value of an `OrgCreateRoamerReq`.
pub ghost struct OrgCreateRoamerReqView {
    pub owner: Seq<u8>,
    pub payer: Seq<u8>,
    pub net_id: HexNetID,
    pub timestamp: u64,
    pub delegate_keys: Seq<Seq<u8>>,
    pub signature: Seq<u8>,
}

impl View for OrgCreateRoamerReq {
    type V = OrgCreateRoamerReqView;

    open spec fn view(&self) -> OrgCreateRoamerReqView {
        OrgCreateRoamerReqView {
            owner: self.owner@,
            payer: self.payer@,
            net_id: self.net_id,
            timestamp: self.timestamp,
            delegate_keys: self.delegate_keys.deep_view(),
            signature: self.signature@,
        }
    }
}

impl OrgCreateRoamerReq {
    /// A fresh request: payload and timestamp set, no delegate keys,
    /// signature still empty.
    pub fn new(owner: Vec<u8>, payer: Vec<u8>, net_id: HexNetID, timestamp: u64) -> (r: Self)
        ensures
            r@ == (OrgCreateRoamerReqView {
                owner: owner@,
                payer: payer@,
                net_id,
                timestamp,
                delegate_keys: Seq::empty(),
                signature: Seq::empty(),
            }),
    {
        let r = Self {
            owner,
            payer,
            net_id,
            timestamp,
            delegate_keys: Vec::new(),
            signature: Vec::new(),
        };
        proof {
            assert(r.delegate_keys.deep_view() =~= Seq::<Seq<u8>>::empty());
        }
        r
    }
}

impl MsgSign for OrgCreateRoamerReq {
    open spec fn spec_signature(v: OrgCreateRoamerReqView) -> Seq<u8> {
        v.signature
    }

    open spec fn spec_with_signature(
        v: OrgCreateRoamerReqView,
        sig: Seq<u8>,
    ) -> OrgCreateRoamerReqView {
        OrgCreateRoamerReqView { signature: sig, ..v }
    }

    /// Fields in wire order: owner key, payer key, network identifier,
    /// timestamp, delegate keys, signature.
    open spec fn spec_encoding(v: OrgCreateRoamerReqView) -> Seq<u8> {
        bytes_field(1, v.owner) + bytes_field(2, v.payer) + uint_field(3, v.net_id.0 as nat)
            + uint_field(4, v.timestamp as nat) + repeated_bytes(5, v.delegate_keys)
            + bytes_field(6, v.signature)
    }

    proof fn lemma_signature_field(v: OrgCreateRoamerReqView, s1: Seq<u8>, s2: Seq<u8>) {
    }

    fn canonical_bytes(&self) -> (r: Vec<u8>) {
        let mut buf: Vec<u8> = Vec::new();
        put_bytes(&mut buf, 1, self.owner.as_slice());
        put_bytes(&mut buf, 2, self.payer.as_slice());
        put_uint(&mut buf, 3, self.net_id.0);
        put_uint(&mut buf, 4, self.timestamp);
        put_repeated(&mut buf, 5, &self.delegate_keys);
        proof {
            assert(buf@ =~= Self::spec_encoding(Self::spec_with_signature(self@, Seq::empty())));
        }
        buf
    }

    fn set_signature(&mut self, sig: Vec<u8>) {
        self.signature = sig;
    }

    fn sign(&self, keypair: &helium_crypto::Keypair) -> (r: Result<Vec<u8>, Error>) {
        let bytes = self.canonical_bytes();
        match crate::signing::crypto_sign(keypair, bytes.as_slice()) {
            Ok(sig) => Ok(sig),
            Err(text) => Err(Error::Signing(text)),
        }
    }
}

/// Signed request to create a roaming organization.
pub fn create_roamer_req(
    owner: Vec<u8>,
    payer: Vec<u8>,
    net_id: HexNetID,
    timestamp: u64,
    keypair: &helium_crypto::Keypair,
) -> (r: Result<OrgCreateRoamerReq, Error>)
    ensures
        r matches Ok(m) ==> m@ == (OrgCreateRoamerReqView {
            owner: owner@,
            payer: payer@,
            net_id,
            timestamp,
            delegate_keys: Seq::empty(),
            signature: m@.signature,
        }),
        r matches Err(e) ==> e is Signing,
{
    signed(OrgCreateRoamerReq::new(owner, payer, net_id, timestamp), keypair)
}

} // verus!
