//! Service to support DNS lookup overrides given in a request header.
use vstd::prelude::*;

use crate::bytes::copy_bytes;
use crate::context::Context;
use crate::dns::{pairs_lookup, parse_dns_overrides, parse_overrides_spec, COMMA};
use crate::headers::HeaderMap;

verus! {

/// The designated header held a value that is not a valid override list.
#[derive(Clone, Debug)]
pub struct InvalidHeaderValue {
    /// Name of the offending header.
    pub header_name: Vec<u8>,
}

/// Service to support DNS lookup overrides.
///
/// No DNS lookup is performed by this service, it only adds the overrides
/// found in its designated request header to the DNS override table of the
/// [`Context`], before the inner service runs. The header is opt-in: where it
/// is missing nothing happens. Its value is a list of `host=address` pairs
/// (see [`parse_overrides_spec`]) joined by a separator, ',' unless set
/// otherwise.
#[derive(Clone, Debug)]
pub struct DnsMapService<S> {
    inner: S,
    header_name: Vec<u8>,
    separator: u8,
}

impl<S> DnsMapService<S> {
    pub closed spec fn spec_inner(&self) -> S {
        self.inner
    }

    pub closed spec fn spec_header_name(&self) -> Seq<u8> {
        self.header_name@
    }

    pub closed spec fn spec_separator(&self) -> u8 {
        self.separator
    }

    /// Create a new instance of the [`DnsMapService`].
    pub fn new(inner: S, header_name: Vec<u8>) -> (r: Self)
        ensures
            r.spec_inner() == inner,
            r.spec_header_name() == header_name@,
            r.spec_separator() == COMMA,
    {
        DnsMapService { inner, header_name, separator: COMMA }
    }

    /// Sets the byte that separates override pairs in the header value.
    pub fn separator(self, separator: u8) -> (r: Self)
        ensures
            r.spec_inner() == self.spec_inner(),
            r.spec_header_name() == self.spec_header_name(),
            r.spec_separator() == separator,
    {
        DnsMapService { inner: self.inner, header_name: self.header_name, separator }
    }

    /// Name of the designated header.
    pub fn header_name(&self) -> (r: &Vec<u8>)
        ensures
            r@ == self.spec_header_name(),
    {
        &self.header_name
    }

    /// Reference to the inner service.
    pub fn get_ref(&self) -> (r: &S)
        ensures
            *r == self.spec_inner(),
    {
        &self.inner
    }

    /// Consumes the service, returning the inner service.
    pub fn into_inner(self) -> (r: S)
        ensures
            r == self.spec_inner(),
    {
        self.inner
    }

    /// What this service does before its inner service runs.
    ///
    /// Without the designated header: nothing, and the call goes on. With a
    /// malformed value: an error naming the header, the context untouched,
    /// and the inner service must not run. With a valid value: the parsed
    /// overrides are merged into the context's DNS override table (each host
    /// named in the header gets exactly the addresses the header gives it),
    /// and the call goes on.
    pub fn apply_dns_overrides<State>(&self, ctx: &mut Context<State>, headers: &HeaderMap) -> (r: Result<(), InvalidHeaderValue>)
        ensures
            headers.spec_get(self.spec_header_name()) is None ==> {
                &&& r is Ok
                &&& *final(ctx) == *old(ctx)
            },
            ({
                let v = headers.spec_get(self.spec_header_name());
                v is Some && parse_overrides_spec(v->Some_0, self.spec_separator()) is None ==> {
                    &&& r is Err
                    &&& r->Err_0.header_name@ == self.spec_header_name()
                    &&& *final(ctx) == *old(ctx)
                }
            }),
            ({
                let v = headers.spec_get(self.spec_header_name());
                v is Some && parse_overrides_spec(v->Some_0, self.spec_separator()) is Some ==> {
                    let pairs = parse_overrides_spec(v->Some_0, self.spec_separator())->Some_0;
                    &&& r is Ok
                    &&& forall|h: Seq<u8>|
                        #![trigger final(ctx).spec_dns().spec_lookup(h)]
                        final(ctx).spec_dns().spec_lookup(h) == match pairs_lookup(pairs, h) {
                            Some(a) => Some(a),
                            None => old(ctx).spec_dns().spec_lookup(h),
                        }
                    &&& final(ctx).spec_state() == old(ctx).spec_state()
                    &&& final(ctx).spec_secure_transport() == old(ctx).spec_secure_transport()
                }
            }),
    {
        match headers.get(self.header_name.as_slice()) {
            None => Ok(()),
            Some(value) => match parse_dns_overrides(value.as_slice(), self.separator) {
                None => Err(InvalidHeaderValue { header_name: copy_bytes(self.header_name.as_slice()) }),
                Some(overrides) => {
                    ctx.extend_dns_overrides(overrides);
                    Ok(())
                },
            },
        }
    }
}

} // verus!
