//! Where the server listens, and how it learns the addresses of its clients.
use vstd::prelude::*;

pub mod plain;
pub mod secure;

verus! {

/// An IP address.
#[derive(Clone, Copy, Debug, PartialEq, Eq, Structural)]
pub enum IpAddr {
    V4(u32),
    V6 { address: u128, flow_info: u32, scope_id: u32 },
}

/// An IP address and a port.
#[derive(Clone, Copy, Debug, PartialEq, Eq, Structural)]
pub struct NetworkAddr {
    pub ip: IpAddr,
    pub port: u16,
}

/// The address of the machine itself, 127.0.0.1.
pub const LOOPBACK: u32 = 0x7f00_0001;

/// What stands between the clients and the server.
#[derive(Clone, Copy, Debug, PartialEq, Eq, Structural)]
pub enum ReverseProxy {
    Nginx,
    Cloudflare,
    Cloudfront,
    FlyIo,
    Akamai,
    Envoy,
    Other,
    NoProxy,
}

impl Default for ReverseProxy {
    fn default() -> (r: ReverseProxy)
        ensures
            r == ReverseProxy::NoProxy,
    {
        ReverseProxy::NoProxy
    }
}

/// Where the address of a client is taken from: a request header, or the connection itself.
#[derive(Clone, Copy, Debug, PartialEq, Eq, Structural)]
pub enum ClientIpSource {
    CfConnectingIp,
    CloudFrontViewerAddress,
    ConnectInfo,
    FlyClientIp,
    RightmostXForwardedFor,
    TrueClientIp,
    XEnvoyExternalAddress,
    XRealIp,
}

/// The source of client addresses that a reverse proxy provides.
pub open spec fn provided_source(proxy: ReverseProxy) -> ClientIpSource {
    match proxy {
        ReverseProxy::Nginx => ClientIpSource::XRealIp,
        ReverseProxy::Cloudflare => ClientIpSource::CfConnectingIp,
        ReverseProxy::Cloudfront => ClientIpSource::CloudFrontViewerAddress,
        ReverseProxy::FlyIo => ClientIpSource::FlyClientIp,
        ReverseProxy::Akamai => ClientIpSource::TrueClientIp,
        ReverseProxy::Envoy => ClientIpSource::XEnvoyExternalAddress,
        ReverseProxy::Other => ClientIpSource::RightmostXForwardedFor,
        ReverseProxy::NoProxy => ClientIpSource::ConnectInfo,
    }
}

impl ReverseProxy {
    /// Where the addresses of clients behind the proxy are taken from.
    pub fn ip_source(&self) -> (r: ClientIpSource)
        ensures
            r == provided_source(*self),
    {
        match self {
            ReverseProxy::Nginx => ClientIpSource::XRealIp,
            ReverseProxy::Cloudflare => ClientIpSource::CfConnectingIp,
            ReverseProxy::Cloudfront => ClientIpSource::CloudFrontViewerAddress,
            ReverseProxy::FlyIo => ClientIpSource::FlyClientIp,
            ReverseProxy::Akamai => ClientIpSource::TrueClientIp,
            ReverseProxy::Envoy => ClientIpSource::XEnvoyExternalAddress,
            ReverseProxy::NoProxy => ClientIpSource::ConnectInfo,
            ReverseProxy::Other => ClientIpSource::RightmostXForwardedFor,
        }
    }
}

/// The address of the connection is believed only where no reverse proxy is configured; a
/// header is believed only where one is.
pub proof fn law_headers_are_believed_behind_a_proxy_only(proxy: ReverseProxy)
    ensures
        provided_source(proxy) == ClientIpSource::ConnectInfo <==> proxy == ReverseProxy::NoProxy,
{
}

/// Each kind of reverse proxy has a source of its own.
pub proof fn law_sources_tell_proxies_apart(first: ReverseProxy, second: ReverseProxy)
    ensures
        provided_source(first) == provided_source(second) ==> first == second,
{
}

} // verus!
