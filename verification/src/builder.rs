//! The settings that connections are served with.

use crate::outside::{lend_http1, lend_http2, new_builder};
use hyper_util::rt::TokioExecutor;
use hyper_util::server::conn::auto::{Builder, Http1Builder, Http2Builder};
use vstd::prelude::*;

verus! {

/// Configures how accepted transports are served over HTTP.
///
/// This wraps Hyper's auto protocol connection builder and exposes the protocol-specific tuning
/// builders through [`ConnectionBuilder::http1`] and [`ConnectionBuilder::http2`], allowing
/// protocol behavior to be customized.
pub struct ConnectionBuilder(
    /// Wrapped Hyper auto protocol connection builder.
    Builder<TokioExecutor>,
);

impl View for ConnectionBuilder {
    type V = Builder<TokioExecutor>;

    closed spec fn view(&self) -> Builder<TokioExecutor> {
        self.0
    }
}

impl ConnectionBuilder {
    /// Hyper's default settings with a Tokio executor.
    pub open spec fn is_default(self) -> bool {
        forall|executor: TokioExecutor|
            self@ == #[trigger] crate::outside::default_builder(executor)
    }

    /// Connections can speak both HTTP/1 and HTTP/2. This holds whatever the settings are.
    #[verifier::type_invariant]
    pub open spec fn serves_both_versions(self) -> bool {
        &&& crate::outside::http1_available(self@)
        &&& crate::outside::http2_available(self@)
    }

    /// `settings` is a loan of this builder for changes of its HTTP/1 settings, and `after` is what
    /// the loan leaves of it: as long as the loan does not ask for the HTTP/2 settings, these stay
    /// as they are.
    pub open spec fn lends_http1(
        self,
        settings: Http1Builder<'_, TokioExecutor>,
        after: ConnectionBuilder,
    ) -> bool {
        &&& crate::outside::http1_borrowed(settings) == self@
        &&& crate::outside::http1_returned(settings) == after@
        &&& !crate::outside::asks_for_http2(settings) ==> crate::outside::http2_settings(after@)
            == crate::outside::http2_settings(self@)
    }

    /// `settings` is a loan of this builder for changes of its HTTP/2 settings, and `after` is what
    /// the loan leaves of it: as long as the loan does not ask for the HTTP/1 settings, these stay
    /// as they are.
    pub open spec fn lends_http2(
        self,
        settings: Http2Builder<'_, TokioExecutor>,
        after: ConnectionBuilder,
    ) -> bool {
        &&& crate::outside::http2_borrowed(settings) == self@
        &&& crate::outside::http2_returned(settings) == after@
        &&& !crate::outside::asks_for_http1(settings) ==> crate::outside::http1_settings(after@)
            == crate::outside::http1_settings(self@)
    }

    /// Both builders serve HTTP/1 connections with the same settings, and HTTP/2 connections too.
    pub open spec fn same_settings(self, other: ConnectionBuilder) -> bool {
        &&& crate::outside::http1_settings(self@) == crate::outside::http1_settings(other@)
        &&& crate::outside::http2_settings(self@) == crate::outside::http2_settings(other@)
    }

    /// Creates a connection builder with Hyper's default settings and a Tokio executor.
    pub fn new() -> (builder: Self)
        ensures
            builder.is_default(),
            builder.serves_both_versions(),
    {
        Self::default()
    }

    /// Returns Hyper's HTTP/1 configuration builder.
    ///
    /// Changes made through the returned builder are applied to future connections served by the
    /// server: what is left when its loan ends is what this builder then holds. Without any change,
    /// this builder stays as it was.
    pub fn http1(&mut self) -> (settings: Http1Builder<'_, TokioExecutor>)
        ensures
            old(self).lends_http1(settings, *final(self)),
            has_resolved(settings) ==> final(self)@ == old(self)@,
            final(self).serves_both_versions(),
    {
        proof {
            use_type_invariant(&*self);
        }
        lend_http1(&mut self.0)
    }

    /// Returns Hyper's HTTP/2 configuration builder.
    ///
    /// Changes made through the returned builder are applied to future connections served by the
    /// server: what is left when its loan ends is what this builder then holds. Without any change,
    /// this builder stays as it was.
    pub fn http2(&mut self) -> (settings: Http2Builder<'_, TokioExecutor>)
        ensures
            old(self).lends_http2(settings, *final(self)),
            has_resolved(settings) ==> final(self)@ == old(self)@,
            final(self).serves_both_versions(),
    {
        proof {
            use_type_invariant(&*self);
        }
        lend_http2(&mut self.0)
    }

    /// Borrows the wrapped Hyper builder, for serving a connection with it.
    pub fn as_hyper(&self) -> (builder: &Builder<TokioExecutor>)
        ensures
            *builder == self@,
            self.serves_both_versions(),
    {
        proof {
            use_type_invariant(self);
        }
        &self.0
    }
}

impl Default for ConnectionBuilder {
    fn default() -> (builder: Self)
        ensures
            builder.is_default(),
            builder.serves_both_versions(),
    {
        ConnectionBuilder(new_builder(TokioExecutor::new()))
    }
}

} // verus!
