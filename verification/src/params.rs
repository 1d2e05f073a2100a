//! Connection parameters of one host rule, and how a more specific rule
//! overrides a less specific one.
use crate::layer::{overlay, ParameterSet};
use std::path::PathBuf;
use std::time::Duration;
use vstd::prelude::*;

verus! {

/// The connection parameters that one configuration layer gives.
///
/// Every parameter is optional: `None` means that the layer does not speak
/// about it, `Some` that it does, whatever the value (`Some(false)` and
/// `Some(vec![])` are explicit choices).
#[derive(Debug, PartialEq, Eq)]
pub struct HostParams {
    /// Address on the local machine to connect from.
    pub bind_address: Option<String>,
    /// Network interface on the local machine to connect from.
    pub bind_interface: Option<String>,
    /// Algorithms accepted for certificates signed by an authority.
    pub ca_signature_algorithms: Option<Vec<String>>,
    /// File that holds the user's certificate.
    pub certificate_file: Option<PathBuf>,
    /// Ciphers allowed, most preferred first.
    pub ciphers: Option<Vec<String>>,
    /// Whether the connection is compressed.
    pub compression: Option<bool>,
    /// How many times to try to connect before giving up.
    pub connection_attempts: Option<usize>,
    /// How long to wait for the connection to be made.
    pub connect_timeout: Option<Duration>,
    /// Name of the host to log into.
    pub host_name: Option<String>,
    /// Message authentication codes allowed, most preferred first.
    pub mac: Option<Vec<String>>,
    /// Signature algorithms used for public key authentication.
    pub pubkey_accepted_algorithms: Option<Vec<String>>,
    /// Whether public key authentication is tried.
    pub pubkey_authentication: Option<bool>,
    /// Port on the remote machine that is forwarded over the channel.
    pub remote_forward: Option<u16>,
    /// Whether TCP keepalive messages are sent.
    pub tcp_keep_alive: Option<bool>,
}

impl View for HostParams {
    type V = ParameterSet;

    /// The layer that these parameters stand for: strings by their
    /// characters, lists by the strings in them, in order.
    open spec fn view(&self) -> ParameterSet {
        ParameterSet {
            bind_address: self.bind_address.deep_view(),
            bind_interface: self.bind_interface.deep_view(),
            ca_signature_algorithms: self.ca_signature_algorithms.deep_view(),
            certificate_file: self.certificate_file,
            ciphers: self.ciphers.deep_view(),
            compression: self.compression,
            connection_attempts: self.connection_attempts,
            connect_timeout: self.connect_timeout,
            host_name: self.host_name.deep_view(),
            mac: self.mac.deep_view(),
            pubkey_accepted_algorithms: self.pubkey_accepted_algorithms.deep_view(),
            pubkey_authentication: self.pubkey_authentication,
            remote_forward: self.remote_forward,
            tcp_keep_alive: self.tcp_keep_alive,
        }
    }
}

impl Default for HostParams {
    /// The parameters with nothing set.
    fn default() -> (res: Self)
        ensures
            res@ == ParameterSet::empty(),
    {
        HostParams {
            bind_address: None,
            bind_interface: None,
            ca_signature_algorithms: None,
            certificate_file: None,
            ciphers: None,
            compression: None,
            connection_attempts: None,
            connect_timeout: None,
            host_name: None,
            mac: None,
            pubkey_accepted_algorithms: None,
            pubkey_authentication: None,
            remote_forward: None,
            tcp_keep_alive: None,
        }
    }
}

impl Clone for HostParams {
    /// A copy that stands for the same layer.
    fn clone(&self) -> (res: Self)
        ensures
            res@ == self@,
    {
        HostParams {
            bind_address: self.bind_address.clone(),
            bind_interface: self.bind_interface.clone(),
            ca_signature_algorithms: self.ca_signature_algorithms.clone(),
            certificate_file: self.certificate_file.clone(),
            ciphers: self.ciphers.clone(),
            compression: self.compression,
            connection_attempts: self.connection_attempts,
            connect_timeout: self.connect_timeout,
            host_name: self.host_name.clone(),
            mac: self.mac.clone(),
            pubkey_accepted_algorithms: self.pubkey_accepted_algorithms.clone(),
            pubkey_authentication: self.pubkey_authentication,
            remote_forward: self.remote_forward,
            tcp_keep_alive: self.tcp_keep_alive,
        }
    }
}

/// Stores `given` in `slot` if it holds a value, and leaves `slot` alone if
/// it does not.
fn override_with<T>(slot: &mut Option<T>, given: Option<T>)
    ensures
        *final(slot) == overlay(*old(slot), given),
{
    if let Some(value) = given {
        *slot = Some(value);
    }
}

impl HostParams {
    /// Overrides these parameters with those that `b` sets. A parameter that
    /// `b` leaves unset keeps its value; one that `b` sets takes a copy of
    /// `b`'s value, a list as a whole. `b` itself is only read.
    pub fn merge(&mut self, b: &Self)
        ensures
            final(self)@ == old(self)@.merge(b@),
    {
        override_with(&mut self.bind_address, b.bind_address.clone());
        override_with(&mut self.bind_interface, b.bind_interface.clone());
        override_with(&mut self.ca_signature_algorithms, b.ca_signature_algorithms.clone());
        override_with(&mut self.certificate_file, b.certificate_file.clone());
        override_with(&mut self.ciphers, b.ciphers.clone());
        override_with(&mut self.compression, b.compression);
        override_with(&mut self.connection_attempts, b.connection_attempts);
        override_with(&mut self.connect_timeout, b.connect_timeout);
        override_with(&mut self.host_name, b.host_name.clone());
        override_with(&mut self.mac, b.mac.clone());
        override_with(&mut self.pubkey_accepted_algorithms, b.pubkey_accepted_algorithms.clone());
        override_with(&mut self.pubkey_authentication, b.pubkey_authentication);
        override_with(&mut self.remote_forward, b.remote_forward);
        override_with(&mut self.tcp_keep_alive, b.tcp_keep_alive);
    }
}

} // verus!
