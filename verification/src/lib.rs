//! Typed client library for a Unifi network-controller's REST
//! management API.
//!
//! The crate is organised around a small request/response protocol
//! core: a session handle ([`Unified`]) holding connection parameters
//! and credentials, a request builder that computes variant-specific
//! URLs and headers, a response-envelope decoder, and one module per
//! resource family (sites, devices, clients, networks, wireless
//! networks, RADIUS users and profiles, alerts, events), each exposing
//! the same list-then-find pattern.
//!
//! The protocol logic is all plain functions from values to values:
//! JSON parsing and serialising, envelope unwrapping, record mapping,
//! selector validation and matching, and request construction. The HTTP
//! transport itself is left to the embedding application, which
//! performs the request a [`http::RequestParts`] describes and feeds
//! the raw response text back into the decoders defined here.

pub mod addr;
pub mod alerts;
pub mod clients;
pub mod devices;
pub mod error;
pub mod events;
pub mod http;
pub mod json;
pub mod laws;
pub mod networks;
pub mod radius;
pub mod sites;
pub mod text;
pub mod unified;
pub mod wire;
pub mod wireless;

pub use crate::{
    alerts::Alert,
    clients::{Client, ClientRef},
    devices::{Device, DeviceRef, DeviceState},
    error::UnifiedError,
    events::Event,
    networks::{Network, NetworkBuilder, NetworkGroup, NetworkPurpose, NetworkRef},
    radius::{
        RadiusProfile, RadiusUser, RadiusUserBuilder, RadiusUserRef, TunnelMediumType, TunnelType,
    },
    sites::{Site, SiteHealth, SiteRef},
    unified::Unified,
    wireless::{WirelessNetwork, WirelessNetworkRef, WirelessNetworkWpa},
};
