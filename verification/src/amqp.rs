//! The broker-side plan for one connection cycle: whether to declare the
//! exchange, with which properties, and where every message is published.

use vstd::prelude::*;

use vstd::string::StrSliceExecFns;

use crate::settings::Settings;

verus! {

/// The kind of exchange the bridge declares. Only direct exchanges are used.
#[derive(Clone, Copy, PartialEq, Eq, Structural, Debug)]
pub enum DeclaredExchangeKind {
    Direct,
}

/// The one exchange declaration the bridge may issue: the named exchange,
/// direct, durable, not auto-deleted, not internal, not passive.
pub struct ExchangeDeclaration {
    /// Name of the exchange to declare.
    pub name: String,
    /// Exchange kind: always direct.
    pub kind: DeclaredExchangeKind,
    /// Passive declaration (check-only): never requested.
    pub passive: bool,
    /// Durable: the exchange survives a broker restart. Always requested.
    pub durable: bool,
    /// Auto-delete: never requested.
    pub auto_delete: bool,
    /// Internal: never requested.
    pub internal: bool,
    /// No-wait (skip the broker's confirmation): never requested.
    pub nowait: bool,
}

/// Where every forwarded message goes: the configured exchange (possibly
/// empty, meaning the broker's default exchange) and the configured routing
/// key.
pub struct PublishTarget {
    /// Exchange published to; empty selects the broker's default exchange.
    pub exchange: String,
    /// Routing key attached to every message.
    pub routing_key: String,
}

/// The declaration to issue while connecting: none when no exchange is named
/// (the broker's default exchange needs no declaring), else the named
/// exchange as direct, durable, non-auto-delete, non-internal, non-passive.
pub fn exchange_declaration(settings: &Settings) -> (d: Option<ExchangeDeclaration>)
    ensures
        settings.amqp_exchange@.len() == 0 ==> d is None,
        settings.amqp_exchange@.len() > 0 ==> (d matches Some(decl) && {
            &&& decl.name@ == settings.amqp_exchange@
            &&& decl.kind is Direct
            &&& !decl.passive
            &&& decl.durable
            &&& !decl.auto_delete
            &&& !decl.internal
            &&& !decl.nowait
        }),
{
    if settings.amqp_exchange.as_str().unicode_len() == 0 {
        None
    } else {
        Some(
            ExchangeDeclaration {
                name: settings.amqp_exchange.clone(),
                kind: DeclaredExchangeKind::Direct,
                passive: false,
                durable: true,
                auto_delete: false,
                internal: false,
                nowait: false,
            },
        )
    }
}

/// The publish target of every message: the configured exchange and routing
/// key, unchanged, whether or not the exchange is named.
pub fn publish_target(settings: &Settings) -> (t: PublishTarget)
    ensures
        t.exchange@ == settings.amqp_exchange@,
        t.routing_key@ == settings.amqp_routing_key@,
{
    PublishTarget {
        exchange: settings.amqp_exchange.clone(),
        routing_key: settings.amqp_routing_key.clone(),
    }
}

} // verus!
