//! The configuration, and what it asks the process to start.

use crate::text::views;
use vstd::prelude::*;

verus! {

/// The settings that the proxy is started with. An absent setting takes its
/// default.
#[derive(Clone, Debug)]
pub struct Config {
    /// Where the blocklist comes from: addresses of remote documents, or
    /// paths of local files. Default: no source.
    pub blocklist_sources: Option<Vec<String>>,
    /// The address of the datagram listener.
    pub listen_addr: String,
    /// The address of the TLS listener. Default: [`default_dot_addr`].
    pub dot_listen_addr: Option<String>,
    /// The address of the HTTP listener. Default: [`default_doh_addr`].
    pub doh_listen_addr: Option<String>,
    /// The address of the upstream resolver.
    pub upstream_addr: String,
    /// The path of the certificate chain, in PEM.
    pub tls_cert: Option<String>,
    /// The path of the private key, in PEM.
    pub tls_key: Option<String>,
    /// Whether the datagram listener runs. Default: yes.
    pub enable_udp: Option<bool>,
    /// Whether the TLS listener runs. Default: no.
    pub enable_dot: Option<bool>,
    /// Whether the HTTP listener runs. Default: no.
    pub enable_doh: Option<bool>,
}

/// The certificate chain and the private key of a TLS listener, by path.
pub struct TlsMaterial {
    pub cert: String,
    pub key: String,
}

/// A [`TlsMaterial`] as contracts see it.
pub struct TlsMaterialView {
    pub cert: Seq<char>,
    pub key: Seq<char>,
}

impl View for TlsMaterial {
    type V = TlsMaterialView;

    open spec fn view(&self) -> TlsMaterialView {
        TlsMaterialView { cert: self.cert@, key: self.key@ }
    }
}

/// The TLS listener to start.
pub struct DotListener {
    pub addr: String,
    pub tls: TlsMaterial,
}

/// The HTTP listener to start. Without TLS material it serves plain HTTP.
pub struct DohListener {
    pub addr: String,
    pub tls: Option<TlsMaterial>,
}

/// What the process starts: the listeners that are enabled, each with its
/// address, and what they share.
pub struct StartupPlan {
    /// The address of the datagram listener, where it is enabled.
    pub udp: Option<String>,
    /// The TLS listener, where it is enabled.
    pub dot: Option<DotListener>,
    /// The HTTP listener, where it is enabled.
    pub doh: Option<DohListener>,
    /// The address of the upstream resolver.
    pub upstream_addr: String,
    /// The blocklist sources, in the order of the configuration.
    pub blocklist_sources: Vec<String>,
}

/// Why the process cannot start.
#[derive(Clone, Copy, PartialEq, Eq, Debug)]
pub enum StartupError {
    /// The TLS listener is enabled and no certificate is configured.
    MissingTlsCert,
    /// The TLS listener is enabled and no private key is configured.
    MissingTlsKey,
}

/// The address that the TLS listener takes where none is configured.
pub open spec fn default_dot_addr() -> Seq<char> {
    "0.0.0.0:853"@
}

/// The address that the HTTP listener takes where none is configured.
pub open spec fn default_doh_addr() -> Seq<char> {
    "0.0.0.0:8443"@
}

impl Config {
    /// Whether the datagram listener runs.
    pub open spec fn udp_enabled(&self) -> bool {
        self.enable_udp != Some(false)
    }

    /// Whether the TLS listener runs.
    pub open spec fn dot_enabled(&self) -> bool {
        self.enable_dot == Some(true)
    }

    /// Whether the HTTP listener runs.
    pub open spec fn doh_enabled(&self) -> bool {
        self.enable_doh == Some(true)
    }

    /// The address of the TLS listener.
    pub open spec fn dot_addr(&self) -> Seq<char> {
        match self.dot_listen_addr {
            Some(addr) => addr@,
            None => default_dot_addr(),
        }
    }

    /// The address of the HTTP listener.
    pub open spec fn doh_addr(&self) -> Seq<char> {
        match self.doh_listen_addr {
            Some(addr) => addr@,
            None => default_doh_addr(),
        }
    }

    /// The TLS material, where certificate and key are both configured.
    pub open spec fn tls_material(&self) -> Option<TlsMaterialView> {
        match (self.tls_cert, self.tls_key) {
            (Some(cert), Some(key)) => Some(TlsMaterialView { cert: cert@, key: key@ }),
            _ => None,
        }
    }

    /// The blocklist sources.
    pub open spec fn sources(&self) -> Seq<Seq<char>> {
        match self.blocklist_sources {
            Some(sources) => views(sources@),
            None => Seq::empty(),
        }
    }

    /// What stands in the way of a start, if anything: an enabled TLS
    /// listener needs a certificate and a key.
    pub open spec fn startup_error(&self) -> Option<StartupError> {
        if !self.dot_enabled() {
            None
        } else if self.tls_cert is None {
            Some(StartupError::MissingTlsCert)
        } else if self.tls_key is None {
            Some(StartupError::MissingTlsKey)
        } else {
            None
        }
    }

    /// Whether `plan` is what this configuration asks for.
    pub open spec fn asks_for(&self, plan: StartupPlan) -> bool {
        &&& plan.udp is Some <==> self.udp_enabled()
        &&& plan.udp matches Some(addr) ==> addr@ == self.listen_addr@
        &&& plan.dot is Some <==> self.dot_enabled()
        &&& plan.dot matches Some(dot) ==> dot.addr@ == self.dot_addr() && Some(dot.tls@) == self.tls_material()
        &&& plan.doh is Some <==> self.doh_enabled()
        &&& plan.doh matches Some(doh) ==> doh.addr@ == self.doh_addr() && (doh.tls is Some
            <==> self.tls_material() is Some) && (doh.tls matches Some(tls) ==> Some(tls@) == self.tls_material())
        &&& plan.upstream_addr@ == self.upstream_addr@
        &&& views(plan.blocklist_sources@) == self.sources()
    }

    /// Copies the TLS material out, where certificate and key are both
    /// configured.
    fn material(&self) -> (tls: Option<TlsMaterial>)
        ensures
            tls is Some <==> self.tls_material() is Some,
            tls matches Some(t) ==> Some(t@) == self.tls_material(),
    {
        match (&self.tls_cert, &self.tls_key) {
            (Some(cert), Some(key)) => Some(TlsMaterial { cert: cert.clone(), key: key.clone() }),
            _ => None,
        }
    }

    /// Copies the blocklist sources out.
    pub fn blocklist_sources(&self) -> (sources: Vec<String>)
        ensures
            views(sources@) == self.sources(),
    {
        let mut sources: Vec<String> = Vec::new();
        match &self.blocklist_sources {
            Some(configured) => {
                let mut i: usize = 0;
                while i < configured.len()
                    invariant
                        i <= configured.len(),
                        sources@.len() == i,
                        forall|j: int| 0 <= j < i ==> sources@[j]@ == configured@[j]@,
                    decreases configured.len() - i,
                {
                    sources.push(configured[i].clone());
                    i += 1;
                }
                assert(views(sources@) =~= views(configured@));
            },
            None => {},
        }
        sources
    }

    /// Works out what to start. Fails where the TLS listener is enabled
    /// without a certificate or without a key.
    pub fn plan(&self) -> (planned: Result<StartupPlan, StartupError>)
        ensures
            planned is Err <==> self.startup_error() is Some,
            planned matches Err(error) ==> Some(error) == self.startup_error(),
            planned matches Ok(plan) ==> self.asks_for(plan),
    {
        let udp = match self.enable_udp {
            Some(false) => None,
            _ => Some(self.listen_addr.clone()),
        };
        let dot = match self.enable_dot {
            Some(true) => {
                let addr = match &self.dot_listen_addr {
                    Some(addr) => addr.clone(),
                    None => "0.0.0.0:853".to_owned(),
                };
                match (&self.tls_cert, &self.tls_key) {
                    (None, _) => {
                        return Err(StartupError::MissingTlsCert);
                    },
                    (Some(_), None) => {
                        return Err(StartupError::MissingTlsKey);
                    },
                    (Some(cert), Some(key)) => Some(
                        DotListener { addr, tls: TlsMaterial { cert: cert.clone(), key: key.clone() } },
                    ),
                }
            },
            _ => None,
        };
        let doh = match self.enable_doh {
            Some(true) => {
                let addr = match &self.doh_listen_addr {
                    Some(addr) => addr.clone(),
                    None => "0.0.0.0:8443".to_owned(),
                };
                Some(DohListener { addr, tls: self.material() })
            },
            _ => None,
        };
        Ok(
            StartupPlan {
                udp,
                dot,
                doh,
                upstream_addr: self.upstream_addr.clone(),
                blocklist_sources: self.blocklist_sources(),
            },
        )
    }
}

/// The sources that a refresh cycle fetches: those of the configuration as
/// it was read again for the cycle or, where it could not be read, those of
/// the cycle before.
pub open spec fn sources_of_cycle(reread: Option<&Config>, last: Seq<String>) -> Seq<Seq<char>> {
    match reread {
        Some(config) => config.sources(),
        None => views(last),
    }
}

/// Picks the sources that a refresh cycle fetches.
pub fn cycle_sources(reread: Option<&Config>, last: Vec<String>) -> (sources: Vec<String>)
    ensures
        views(sources@) == sources_of_cycle(reread, last@),
{
    match reread {
        Some(config) => config.blocklist_sources(),
        None => last,
    }
}

} // verus!
