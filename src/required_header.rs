//! Sets required headers on responses: `Server` and `Date`.
use vstd::prelude::*;

use crate::headers::HeaderMap;

verus! {

/// Name of the `Server` header: "server".
pub open spec fn server_header_name() -> Seq<u8> {
    seq![115u8, 101, 114, 118, 101, 114]
}

/// Name of the `Date` header: "date".
pub open spec fn date_header_name() -> Seq<u8> {
    seq![100u8, 97, 116, 101]
}

/// The framework's identity, as sent in the `Server` header: "rama/0.2.0".
pub open spec fn server_identity() -> Seq<u8> {
    seq![114u8, 97, 109, 97, 47, 48, 46, 50, 46, 48]
}

/// Name of the `Server` header.
pub fn server_header() -> (r: Vec<u8>)
    ensures
        r@ == server_header_name(),
{
    let r = vec![115u8, 101, 114, 118, 101, 114];
    assert(r@ =~= server_header_name());
    r
}

/// Name of the `Date` header.
pub fn date_header() -> (r: Vec<u8>)
    ensures
        r@ == date_header_name(),
{
    let r = vec![100u8, 97, 116, 101];
    assert(r@ =~= date_header_name());
    r
}

/// The framework's identity, as sent in the `Server` header.
pub fn server_identity_value() -> (r: Vec<u8>)
    ensures
        r@ == server_identity(),
{
    let r = vec![114u8, 97, 109, 97, 47, 48, 46, 50, 46, 48];
    assert(r@ =~= server_identity());
    r
}

/// Layer that applies [`AddRequiredResponseHeaders`].
#[derive(Debug, Clone)]
pub struct AddRequiredResponseHeadersLayer {
    overwrite: bool,
}

impl AddRequiredResponseHeadersLayer {
    pub closed spec fn spec_overwrite(&self) -> bool {
        self.overwrite
    }

    /// Create a new [`AddRequiredResponseHeadersLayer`], which does not
    /// overwrite existing headers.
    pub fn new() -> (r: Self)
        ensures
            !r.spec_overwrite(),
    {
        AddRequiredResponseHeadersLayer { overwrite: false }
    }

    /// Set whether to overwrite the existing headers.
    pub fn overwrite(self, overwrite: bool) -> (r: Self)
        ensures
            r.spec_overwrite() == overwrite,
    {
        let mut this = self;
        this.overwrite = overwrite;
        this
    }

    /// Set whether to overwrite the existing headers.
    pub fn set_overwrite(&mut self, overwrite: bool)
        ensures
            final(self).spec_overwrite() == overwrite,
    {
        self.overwrite = overwrite;
    }

    /// Wraps `inner` into an [`AddRequiredResponseHeaders`] with this layer's setting.
    pub fn layer<S>(&self, inner: S) -> (r: AddRequiredResponseHeaders<S>)
        ensures
            r.spec_inner() == inner,
            r.spec_overwrite() == self.spec_overwrite(),
    {
        AddRequiredResponseHeaders { inner, overwrite: self.overwrite }
    }
}

impl Default for AddRequiredResponseHeadersLayer {
    fn default() -> (r: Self)
        ensures
            !r.spec_overwrite(),
    {
        AddRequiredResponseHeadersLayer { overwrite: false }
    }
}

/// Middleware that sets the required headers on the inner service's response.
#[derive(Clone, Debug)]
pub struct AddRequiredResponseHeaders<S> {
    inner: S,
    overwrite: bool,
}

impl<S> AddRequiredResponseHeaders<S> {
    pub closed spec fn spec_overwrite(&self) -> bool {
        self.overwrite
    }

    pub closed spec fn spec_inner(&self) -> S {
        self.inner
    }

    /// Create a new [`AddRequiredResponseHeaders`], which does not overwrite
    /// existing headers.
    pub fn new(inner: S) -> (r: Self)
        ensures
            r.spec_inner() == inner,
            !r.spec_overwrite(),
    {
        AddRequiredResponseHeaders { inner, overwrite: false }
    }

    /// Set whether to overwrite the existing headers.
    pub fn overwrite(self, overwrite: bool) -> (r: Self)
        ensures
            r.spec_overwrite() == overwrite,
            r.spec_inner() == self.spec_inner(),
    {
        let mut this = self;
        this.overwrite = overwrite;
        this
    }

    /// Set whether to overwrite the existing headers.
    pub fn set_overwrite(&mut self, overwrite: bool)
        ensures
            final(self).spec_overwrite() == overwrite,
            final(self).spec_inner() == old(self).spec_inner(),
    {
        self.overwrite = overwrite;
    }

    /// Reference to the inner service.
    pub fn get_ref(&self) -> (r: &S)
        ensures
            *r == self.spec_inner(),
    {
        &self.inner
    }

    /// Consumes this middleware, returning the inner service.
    pub fn into_inner(self) -> (r: S)
        ensures
            r == self.spec_inner(),
    {
        self.inner
    }

    /// Completes the inner service's response headers.
    ///
    /// `Server` gets the framework's identity and `Date` gets `date`, the
    /// formatted current time: when overwriting, always; otherwise only where
    /// the header is missing. No other header changes.
    pub fn add_required_headers(&self, headers: &mut HeaderMap, date: Vec<u8>)
        ensures
            final(headers).spec_get(server_header_name()) == if self.spec_overwrite()
                || old(headers).spec_get(server_header_name()) is None {
                Some(server_identity())
            } else {
                old(headers).spec_get(server_header_name())
            },
            final(headers).spec_get(date_header_name()) == if self.spec_overwrite()
                || old(headers).spec_get(date_header_name()) is None {
                Some(date@)
            } else {
                old(headers).spec_get(date_header_name())
            },
            forall|n: Seq<u8>|
                n != server_header_name() && n != date_header_name() ==> #[trigger] final(headers).spec_get(n)
                    == old(headers).spec_get(n),
    {
        let server = server_header();
        if self.overwrite || !headers.contains_key(server.as_slice()) {
            headers.insert(server, server_identity_value());
        }
        let date_name = date_header();
        if self.overwrite || !headers.contains_key(date_name.as_slice()) {
            headers.insert(date_name, date);
        }
    }
}

} // verus!
