use vstd::prelude::*;

verus! {

/// The kind of a monitor, as carried in its reports.
#[derive(Debug, Clone, Copy, PartialEq, Eq, Structural)]
pub enum MonitorType {
    Ping,
    Http,
    Https,
    Tcp,
    Udp,
}

/// Copies an optional payload.
fn copy_payload(p: &Option<String>) -> (r: Option<String>)
    ensures
        r == *p,
{
    match p {
        Some(s) => Some(s.clone()),
        None => None,
    }
}

#[derive(Debug)]
pub struct PingMonitorConfiguration {
    pub host: String,
}

impl Clone for PingMonitorConfiguration {
    fn clone(&self) -> (r: Self)
        ensures
            r == *self,
    {
        PingMonitorConfiguration { host: self.host.clone() }
    }
}

#[derive(Debug)]
pub struct HttpMonitorConfiguration {
    pub url: String,
}

impl Clone for HttpMonitorConfiguration {
    fn clone(&self) -> (r: Self)
        ensures
            r == *self,
    {
        HttpMonitorConfiguration { url: self.url.clone() }
    }
}

#[derive(Debug)]
pub struct HttpsMonitorConfiguration {
    pub url: String,
}

impl Clone for HttpsMonitorConfiguration {
    fn clone(&self) -> (r: Self)
        ensures
            r == *self,
    {
        HttpsMonitorConfiguration { url: self.url.clone() }
    }
}

#[derive(Debug)]
pub struct TcpMonitorConfiguration {
    pub host: String,
    pub port: u16,
    pub send: Option<String>,
    pub receive: Option<String>,
}

impl Clone for TcpMonitorConfiguration {
    fn clone(&self) -> (r: Self)
        ensures
            r == *self,
    {
        TcpMonitorConfiguration {
            host: self.host.clone(),
            port: self.port,
            send: copy_payload(&self.send),
            receive: copy_payload(&self.receive),
        }
    }
}

#[derive(Debug)]
pub struct UdpMonitorConfiguration {
    pub host: String,
    pub port: u16,
    pub send: Option<String>,
    pub receive: Option<String>,
}

impl Clone for UdpMonitorConfiguration {
    fn clone(&self) -> (r: Self)
        ensures
            r == *self,
    {
        UdpMonitorConfiguration {
            host: self.host.clone(),
            port: self.port,
            send: copy_payload(&self.send),
            receive: copy_payload(&self.receive),
        }
    }
}

/// What to probe, one variant per kind of monitor.
#[derive(Debug)]
pub enum MonitorConfiguration {
    Ping(PingMonitorConfiguration),
    Http(HttpMonitorConfiguration),
    Https(HttpsMonitorConfiguration),
    Tcp(TcpMonitorConfiguration),
    Udp(UdpMonitorConfiguration),
}

impl Clone for MonitorConfiguration {
    fn clone(&self) -> (r: Self)
        ensures
            r == *self,
    {
        match self {
            MonitorConfiguration::Ping(c) => MonitorConfiguration::Ping(c.clone()),
            MonitorConfiguration::Http(c) => MonitorConfiguration::Http(c.clone()),
            MonitorConfiguration::Https(c) => MonitorConfiguration::Https(c.clone()),
            MonitorConfiguration::Tcp(c) => MonitorConfiguration::Tcp(c.clone()),
            MonitorConfiguration::Udp(c) => MonitorConfiguration::Udp(c.clone()),
        }
    }
}

impl MonitorConfiguration {
    /// The kind of monitor that this configuration describes.
    pub open spec fn kind(&self) -> MonitorType {
        match self {
            MonitorConfiguration::Ping(_) => MonitorType::Ping,
            MonitorConfiguration::Http(_) => MonitorType::Http,
            MonitorConfiguration::Https(_) => MonitorType::Https,
            MonitorConfiguration::Tcp(_) => MonitorType::Tcp,
            MonitorConfiguration::Udp(_) => MonitorType::Udp,
        }
    }

    pub fn monitor_type(&self) -> (r: MonitorType)
        ensures
            r == self.kind(),
    {
        match self {
            MonitorConfiguration::Ping(_) => MonitorType::Ping,
            MonitorConfiguration::Http(_) => MonitorType::Http,
            MonitorConfiguration::Https(_) => MonitorType::Https,
            MonitorConfiguration::Tcp(_) => MonitorType::Tcp,
            MonitorConfiguration::Udp(_) => MonitorType::Udp,
        }
    }
}

} // verus!
