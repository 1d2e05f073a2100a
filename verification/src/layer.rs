//! The mathematical model of a configuration layer.
//!
//! A layer is a record of settings, each of them either unset (`None`) or
//! explicitly given (`Some`). An explicit value is never mistaken for
//! silence: `Some(false)`, `Some(0)` and `Some` of an empty list are all
//! choices that a layer has made.
use std::path::PathBuf;
use std::time::Duration;
use vstd::prelude::*;

verus! {

/// What one layer says about one setting when it is laid over what the
/// layers below it said: an explicit choice wins, silence keeps the earlier
/// state.
pub open spec fn overlay<T>(base: Option<T>, top: Option<T>) -> Option<T> {
    match top {
        Some(_) => top,
        None => base,
    }
}

/// The settings that a layer can speak about.
pub enum Field {
    BindAddress,
    BindInterface,
    CaSignatureAlgorithms,
    CertificateFile,
    Ciphers,
    Compression,
    ConnectionAttempts,
    ConnectTimeout,
    HostName,
    Mac,
    PubkeyAcceptedAlgorithms,
    PubkeyAuthentication,
    RemoteForward,
    TcpKeepAlive,
}

/// An explicit value of a setting, whatever its kind.
pub enum Value {
    /// A piece of text, such as a host name.
    Text(Seq<char>),
    /// A list of names in order of preference.
    List(Seq<Seq<char>>),
    /// A location in the file system.
    Path(PathBuf),
    /// A switch.
    Flag(bool),
    /// A number of attempts.
    Count(usize),
    /// A length of time.
    Span(Duration),
    /// A port number.
    Port(u16),
}

/// A layer: for each setting, what the layer says about it. Text is a
/// sequence of characters, a list a sequence of texts in the order given; a
/// path and a length of time are values that are passed on as they are.
pub struct ParameterSet {
    /// Local address to connect from.
    pub bind_address: Option<Seq<char>>,
    /// Local network interface to connect from.
    pub bind_interface: Option<Seq<char>>,
    /// Algorithms accepted for certificates signed by an authority.
    pub ca_signature_algorithms: Option<Seq<Seq<char>>>,
    /// File that holds the user's certificate.
    pub certificate_file: Option<PathBuf>,
    /// Ciphers allowed, most preferred first.
    pub ciphers: Option<Seq<Seq<char>>>,
    /// Whether the connection is compressed.
    pub compression: Option<bool>,
    /// How many times to try to connect.
    pub connection_attempts: Option<usize>,
    /// How long to wait for the connection.
    pub connect_timeout: Option<Duration>,
    /// Name of the host to log into.
    pub host_name: Option<Seq<char>>,
    /// Message authentication codes allowed, most preferred first.
    pub mac: Option<Seq<Seq<char>>>,
    /// Signature algorithms used for public key authentication.
    pub pubkey_accepted_algorithms: Option<Seq<Seq<char>>>,
    /// Whether public key authentication is tried.
    pub pubkey_authentication: Option<bool>,
    /// Remote port that is forwarded.
    pub remote_forward: Option<u16>,
    /// Whether TCP keepalive messages are sent.
    pub tcp_keep_alive: Option<bool>,
}

/// The state of a setting with its value wrapped by `wrap`.
pub open spec fn tagged<T>(slot: Option<T>, wrap: spec_fn(T) -> Value) -> Option<Value> {
    match slot {
        Some(v) => Some(wrap(v)),
        None => None,
    }
}

impl ParameterSet {
    /// The layer that says nothing.
    pub open spec fn empty() -> ParameterSet {
        ParameterSet {
            bind_address: None,
            bind_interface: None,
            ca_signature_algorithms: None,
            certificate_file: None,
            ciphers: None,
            compression: None,
            connection_attempts: None,
            connect_timeout: None,
            host_name: None,
            mac: None,
            pubkey_accepted_algorithms: None,
            pubkey_authentication: None,
            remote_forward: None,
            tcp_keep_alive: None,
        }
    }

    /// This layer with `top` laid over it, setting by setting.
    pub open spec fn merge(self, top: ParameterSet) -> ParameterSet {
        ParameterSet {
            bind_address: overlay(self.bind_address, top.bind_address),
            bind_interface: overlay(self.bind_interface, top.bind_interface),
            ca_signature_algorithms: overlay(
                self.ca_signature_algorithms,
                top.ca_signature_algorithms,
            ),
            certificate_file: overlay(self.certificate_file, top.certificate_file),
            ciphers: overlay(self.ciphers, top.ciphers),
            compression: overlay(self.compression, top.compression),
            connection_attempts: overlay(self.connection_attempts, top.connection_attempts),
            connect_timeout: overlay(self.connect_timeout, top.connect_timeout),
            host_name: overlay(self.host_name, top.host_name),
            mac: overlay(self.mac, top.mac),
            pubkey_accepted_algorithms: overlay(
                self.pubkey_accepted_algorithms,
                top.pubkey_accepted_algorithms,
            ),
            pubkey_authentication: overlay(self.pubkey_authentication, top.pubkey_authentication),
            remote_forward: overlay(self.remote_forward, top.remote_forward),
            tcp_keep_alive: overlay(self.tcp_keep_alive, top.tcp_keep_alive),
        }
    }

    /// What the layer says about `field`.
    pub open spec fn get(self, field: Field) -> Option<Value> {
        match field {
            Field::BindAddress => tagged(self.bind_address, |v| Value::Text(v)),
            Field::BindInterface => tagged(self.bind_interface, |v| Value::Text(v)),
            Field::CaSignatureAlgorithms => tagged(
                self.ca_signature_algorithms,
                |v| Value::List(v),
            ),
            Field::CertificateFile => tagged(self.certificate_file, |v| Value::Path(v)),
            Field::Ciphers => tagged(self.ciphers, |v| Value::List(v)),
            Field::Compression => tagged(self.compression, |v| Value::Flag(v)),
            Field::ConnectionAttempts => tagged(self.connection_attempts, |v| Value::Count(v)),
            Field::ConnectTimeout => tagged(self.connect_timeout, |v| Value::Span(v)),
            Field::HostName => tagged(self.host_name, |v| Value::Text(v)),
            Field::Mac => tagged(self.mac, |v| Value::List(v)),
            Field::PubkeyAcceptedAlgorithms => tagged(
                self.pubkey_accepted_algorithms,
                |v| Value::List(v),
            ),
            Field::PubkeyAuthentication => tagged(self.pubkey_authentication, |v| Value::Flag(v)),
            Field::RemoteForward => tagged(self.remote_forward, |v| Value::Port(v)),
            Field::TcpKeepAlive => tagged(self.tcp_keep_alive, |v| Value::Flag(v)),
        }
    }

    /// Whether the layer gives `field` a value.
    pub open spec fn is_set(self, field: Field) -> bool {
        self.get(field) is Some
    }
}

/// `base` with each of `layers` laid over it in turn, the first of them
/// lowest and the last of them on top.
pub open spec fn merge_all(base: ParameterSet, layers: Seq<ParameterSet>) -> ParameterSet
    decreases layers.len(),
{
    if layers.len() == 0 {
        base
    } else {
        merge_all(base, layers.drop_last()).merge(layers.last())
    }
}

} // verus!
