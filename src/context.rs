//! The per-call context carried through a stack of services.
use vstd::prelude::*;

use crate::dns::DnsOverrides;
use crate::tls::SecureTransportInfo;

verus! {

/// Per-call state: the application's shared `State` plus the call's own
/// data, which layers fill as the call passes through them.
///
/// The call's data has one slot per kind: the DNS override table and the
/// negotiated TLS information. A slot is written by insertion, which replaces
/// what it held, and reading an empty slot is a normal outcome.
pub struct Context<State> {
    state: State,
    dns: DnsOverrides,
    secure_transport: Option<SecureTransportInfo>,
}

impl<State> Context<State> {
    pub closed spec fn spec_state(&self) -> State {
        self.state
    }

    pub closed spec fn spec_dns(&self) -> DnsOverrides {
        self.dns
    }

    pub closed spec fn spec_secure_transport(&self) -> Option<SecureTransportInfo> {
        self.secure_transport
    }

    /// A fresh context for one call: no overrides, no TLS information.
    pub fn new(state: State) -> (r: Context<State>)
        ensures
            r.spec_state() == state,
            forall|h: Seq<u8>| r.spec_dns().spec_lookup(h) is None,
            r.spec_secure_transport() is None,
    {
        Context { state, dns: DnsOverrides::new(), secure_transport: None }
    }

    /// The application state.
    pub fn state(&self) -> (r: &State)
        ensures
            *r == self.spec_state(),
    {
        &self.state
    }

    /// The DNS override table of this call.
    pub fn dns(&self) -> (r: &DnsOverrides)
        ensures
            *r == self.spec_dns(),
    {
        &self.dns
    }

    /// Merges `overrides` into the DNS override table (see [`DnsOverrides::extend`]).
    pub fn extend_dns_overrides(&mut self, overrides: DnsOverrides)
        ensures
            forall|h: Seq<u8>|
                #![trigger final(self).spec_dns().spec_lookup(h)]
                final(self).spec_dns().spec_lookup(h) == match overrides.spec_lookup(h) {
                    Some(v) => Some(v),
                    None => old(self).spec_dns().spec_lookup(h),
                },
            final(self).spec_state() == old(self).spec_state(),
            final(self).spec_secure_transport() == old(self).spec_secure_transport(),
    {
        self.dns.extend(overrides);
    }

    /// The TLS information of this call, if a TLS acceptor recorded it.
    pub fn secure_transport(&self) -> (r: Option<&SecureTransportInfo>)
        ensures
            r is None <==> self.spec_secure_transport() is None,
            r is Some ==> *r->Some_0 == self.spec_secure_transport()->Some_0,
    {
        match &self.secure_transport {
            Some(info) => Some(info),
            None => None,
        }
    }

    /// Stores the TLS information of this call, replacing any earlier one.
    pub fn insert_secure_transport(&mut self, info: SecureTransportInfo)
        ensures
            final(self).spec_secure_transport() == Some(info),
            final(self).spec_state() == old(self).spec_state(),
            final(self).spec_dns() == old(self).spec_dns(),
    {
        self.secure_transport = Some(info);
    }
}

} // verus!
