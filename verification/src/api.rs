//! The custom resources of the gateway's API group, version `v1alpha1`.
use crate::backends::IpAddress;
use vstd::prelude::*;
use vstd::string::*;

verus! {

/// A reference to an object by name and, optionally, namespace.
#[derive(Debug, PartialEq)]
pub struct Ref {
    pub name: String,
    pub namespace: Option<String>,
}

/// The gateways that a resource applies to: none, one, or several.
#[derive(Debug, PartialEq)]
pub enum GatewayRefs {
    Unspecified,
    One(Ref),
    Many(Vec<Ref>),
}

impl Default for GatewayRefs {
    fn default() -> (r: Self)
        ensures
            r is Unspecified,
    {
        GatewayRefs::Unspecified
    }
}

/// The log level of a gateway.
#[derive(Debug, Clone, Copy, PartialEq, Eq)]
pub enum LogLevel {
    Debug,
    Info,
    Warn,
    Error,
}

impl Default for LogLevel {
    fn default() -> (r: Self)
        ensures
            r == LogLevel::Info,
    {
        LogLevel::Info
    }
}

/// The text of a log level in camel case.
pub open spec fn log_level_text(l: LogLevel) -> Seq<char> {
    match l {
        LogLevel::Debug => "debug"@,
        LogLevel::Info => "info"@,
        LogLevel::Warn => "warn"@,
        LogLevel::Error => "error"@,
    }
}

impl LogLevel {
    /// The level's name in camel case.
    pub fn as_str(&self) -> (s: &'static str)
        ensures
            s@ == log_level_text(*self),
    {
        match self {
            LogLevel::Debug => "debug",
            LogLevel::Info => "info",
            LogLevel::Warn => "warn",
            LogLevel::Error => "error",
        }
    }
}

/// When the gateway's image is pulled.
#[derive(Debug, Clone, Copy, PartialEq, Eq)]
pub enum ImagePullPolicy {
    Always,
    IfNotPresent,
    Never,
}

impl Default for ImagePullPolicy {
    fn default() -> (r: Self)
        ensures
            r == ImagePullPolicy::IfNotPresent,
    {
        ImagePullPolicy::IfNotPresent
    }
}

/// The name of an image pull policy, as Kubernetes spells it.
pub open spec fn image_pull_policy_text(p: ImagePullPolicy) -> Seq<char> {
    match p {
        ImagePullPolicy::Always => "Always"@,
        ImagePullPolicy::IfNotPresent => "IfNotPresent"@,
        ImagePullPolicy::Never => "Never"@,
    }
}

impl ImagePullPolicy {
    /// The policy's name as Kubernetes spells it.
    pub fn as_str(&self) -> (s: &'static str)
        ensures
            s@ == image_pull_policy_text(*self),
    {
        match self {
            ImagePullPolicy::Always => "Always",
            ImagePullPolicy::IfNotPresent => "IfNotPresent",
            ImagePullPolicy::Never => "Never",
        }
    }
}

/// The image of the gateway.
#[derive(Debug, PartialEq)]
pub struct Image {
    pub repository: Option<String>,
    pub tag: Option<String>,
}

/// How the gateway answers with an error.
#[derive(Debug, Clone, Copy, PartialEq, Eq)]
pub enum ErrorResponseKind {
    Empty,
    Html,
    ProblemDetail,
}

impl Default for ErrorResponseKind {
    fn default() -> (r: Self)
        ensures
            r == ErrorResponseKind::Empty,
    {
        ErrorResponseKind::Empty
    }
}

/// The authority that problem detail error responses name.
#[derive(Debug, PartialEq)]
pub struct ProblemDetailErrorResponse {
    pub authority: Option<String>,
}

/// How the gateway answers with errors.
#[derive(Debug, PartialEq)]
pub struct ErrorResponses {
    pub kind: ErrorResponseKind,
    pub problem_detail: Option<ProblemDetailErrorResponse>,
}

impl Default for ErrorResponses {
    fn default() -> (r: Self)
        ensures
            r.kind == ErrorResponseKind::Empty,
            r.problem_detail is None,
    {
        ErrorResponses { kind: ErrorResponseKind::Empty, problem_detail: None }
    }
}

/// Where the gateway learns a client's address from.
#[derive(Debug, Clone, Copy, PartialEq, Eq)]
pub enum ClientAddressesSource {
    Unspecified,
    Header,
    Proxies,
}

impl Default for ClientAddressesSource {
    fn default() -> (r: Self)
        ensures
            r == ClientAddressesSource::Unspecified,
    {
        ClientAddressesSource::Unspecified
    }
}

/// The headers through which trusted proxies pass on a client's address.
#[derive(Debug, Clone, Copy, PartialEq, Eq)]
pub enum ProxyIpAddressHeaders {
    Forwarded,
    XForwardedFor,
    XForwardedHost,
    XForwardedProto,
    XForwardedBy,
}

/// A range of addresses in CIDR notation: an address and a prefix length.
#[derive(Debug, Clone, Copy, PartialEq, Eq)]
pub struct IpRange {
    pub address: IpAddress,
    pub prefix_len: u8,
}

/// The proxies whose word on a client's address the gateway trusts.
#[derive(Debug, PartialEq)]
pub struct ClientAddressesProxies {
    pub trust_local_ranges: bool,
    pub trusted_ips: Vec<IpAddress>,
    pub trusted_ranges: Vec<IpRange>,
    pub trusted_headers: Vec<ProxyIpAddressHeaders>,
}

/// Whether local ranges are trusted when the configuration does not say.
pub fn trusted_private_ranges_default() -> (b: bool)
    ensures
        b,
{
    true
}

/// The headers trusted when the configuration does not say: only
/// `X-Forwarded-For`.
pub fn trusted_headers_default() -> (v: Vec<ProxyIpAddressHeaders>)
    ensures
        v@ == seq![ProxyIpAddressHeaders::XForwardedFor],
{
    let mut v = Vec::new();
    v.push(ProxyIpAddressHeaders::XForwardedFor);
    v
}

/// Where the gateway learns clients' addresses from.
#[derive(Debug, PartialEq)]
pub struct ClientAddresses {
    pub source: ClientAddressesSource,
    pub header: Option<String>,
    pub proxies: Option<ClientAddressesProxies>,
}

/// The part of a gateway's configuration that its parameters set.
#[derive(Debug, PartialEq)]
pub struct GatewayConfiguration {
    pub log_level: Option<LogLevel>,
    pub error_responses: Option<ErrorResponses>,
    pub client_addresses: Option<ClientAddresses>,
}

impl Default for GatewayConfiguration {
    fn default() -> (r: Self)
        ensures
            r.log_level is None,
            r.error_responses is None,
            r.client_addresses is None,
    {
        GatewayConfiguration { log_level: None, error_responses: None, client_addresses: None }
    }
}

/// How a gateway's deployment differs from the default one; `St` is the
/// deployment strategy as the cluster describes it.
#[derive(Debug, PartialEq)]
pub struct GatewayDeployment<St> {
    pub replicas: Option<i32>,
    pub strategy: Option<St>,
    pub image_pull_policy: Option<ImagePullPolicy>,
    pub image: Option<Image>,
}

/// What the parameters of a gateway class and of a gateway both hold.
#[derive(Debug, PartialEq)]
pub struct CommonGatewayParameterSpec<St> {
    pub deployment: Option<GatewayDeployment<St>>,
    pub gateway: Option<GatewayConfiguration>,
}

/// The parameters of a gateway class.
#[derive(Debug, PartialEq)]
pub struct GatewayClassParametersSpec<St> {
    pub common: CommonGatewayParameterSpec<St>,
}

/// The parameters of one gateway; `Sv` is the service specification as the
/// cluster describes it.
#[derive(Debug, PartialEq)]
pub struct GatewayParametersSpec<St, Sv> {
    pub common: Option<CommonGatewayParameterSpec<St>>,
    pub service: Option<Sv>,
}

/// How a static response's body is given.
#[derive(Debug, Clone, Copy, PartialEq, Eq)]
pub enum StaticResponseFilterBodyFormat {
    Text,
    Binary,
}

/// The body of a static response.
#[derive(Debug, PartialEq)]
pub struct StaticResponseFilterBody {
    pub format: StaticResponseFilterBodyFormat,
    pub content_type: String,
    pub text: Option<String>,
    pub binary: Option<String>,
}

/// The specification of a static response filter: the status code and the
/// body of the response.
#[derive(Debug, PartialEq)]
pub struct StaticResponseFilterSpec {
    pub status_code: u16,
    pub body: Option<StaticResponseFilterBody>,
}

/// Whether an access control filter lets the matching clients in or keeps
/// them out.
#[derive(Debug, Clone, Copy, PartialEq, Eq)]
pub enum AccessControlFilterEffect {
    Allow,
    Deny,
}

/// The clients that an access control filter matches: by range and by
/// single address.
#[derive(Debug, PartialEq)]
pub struct AccessControlFilterClients {
    pub ip_ranges: Vec<IpRange>,
    pub ips: Vec<IpAddress>,
}

/// The specification of an access control filter.
#[derive(Debug, PartialEq)]
pub struct AccessControlFilterSpec {
    pub effect: AccessControlFilterEffect,
    pub clients: AccessControlFilterClients,
}

/// A point in time: seconds and nanoseconds since the Unix epoch.
#[derive(Debug, Clone, Copy, PartialEq, Eq)]
pub struct Timestamp {
    pub seconds: i64,
    pub nanos: u32,
}

/// A condition of an object's status.
#[derive(Debug, PartialEq)]
pub struct Condition {
    pub type_: String,
    pub status: String,
    pub reason: String,
    pub message: String,
    pub last_transition_time: Timestamp,
    pub observed_generation: Option<i64>,
}

/// The model of a [`Condition`].
pub struct ConditionView {
    pub type_: Seq<char>,
    pub status: Seq<char>,
    pub reason: Seq<char>,
    pub message: Seq<char>,
    pub last_transition_time: Timestamp,
    pub observed_generation: Option<i64>,
}

impl View for Condition {
    type V = ConditionView;

    open spec fn view(&self) -> ConditionView {
        ConditionView {
            type_: self.type_@,
            status: self.status@,
            reason: self.reason@,
            message: self.message@,
            last_transition_time: self.last_transition_time,
            observed_generation: self.observed_generation,
        }
    }
}

/// The views of a list of conditions.
pub open spec fn condition_views(s: Seq<Condition>) -> Seq<ConditionView> {
    s.map_values(|c: Condition| c@)
}

/// The status of a static response filter.
#[derive(Debug, PartialEq)]
pub struct StaticResponseFilterStatus {
    pub conditions: Option<Vec<Condition>>,
    pub attached_routes: i32,
    pub last_updated: Option<Timestamp>,
}

/// The types of the conditions of a static response filter's status.
#[derive(Debug, Clone, Copy, PartialEq, Eq)]
pub enum StaticResponseFilterConditionType {
    Accepted,
    Ready,
    Attached,
}

/// The text of a condition type.
pub open spec fn condition_type_text(t: StaticResponseFilterConditionType) -> Seq<char> {
    match t {
        StaticResponseFilterConditionType::Accepted => "Accepted"@,
        StaticResponseFilterConditionType::Ready => "Ready"@,
        StaticResponseFilterConditionType::Attached => "Attached"@,
    }
}

impl StaticResponseFilterConditionType {
    /// The condition type's name.
    pub fn as_str(&self) -> (s: &'static str)
        ensures
            s@ == condition_type_text(*self),
    {
        match self {
            StaticResponseFilterConditionType::Accepted => "Accepted",
            StaticResponseFilterConditionType::Ready => "Ready",
            StaticResponseFilterConditionType::Attached => "Attached",
        }
    }
}

/// The reasons of the conditions of a static response filter's status.
#[derive(Debug, Clone, Copy, PartialEq, Eq)]
pub enum StaticResponseFilterConditionReason {
    Accepted,
    InvalidConfiguration,
    Ready,
    NotReady,
    AttachedToRoute,
    NotAttached,
}

/// The text of a condition reason.
pub open spec fn condition_reason_text(r: StaticResponseFilterConditionReason) -> Seq<char> {
    match r {
        StaticResponseFilterConditionReason::Accepted => "Accepted"@,
        StaticResponseFilterConditionReason::InvalidConfiguration => "InvalidConfiguration"@,
        StaticResponseFilterConditionReason::Ready => "Ready"@,
        StaticResponseFilterConditionReason::NotReady => "NotReady"@,
        StaticResponseFilterConditionReason::AttachedToRoute => "AttachedToRoute"@,
        StaticResponseFilterConditionReason::NotAttached => "NotAttached"@,
    }
}

impl StaticResponseFilterConditionReason {
    /// The condition reason's name.
    pub fn as_str(&self) -> (s: &'static str)
        ensures
            s@ == condition_reason_text(*self),
    {
        match self {
            StaticResponseFilterConditionReason::Accepted => "Accepted",
            StaticResponseFilterConditionReason::InvalidConfiguration => "InvalidConfiguration",
            StaticResponseFilterConditionReason::Ready => "Ready",
            StaticResponseFilterConditionReason::NotReady => "NotReady",
            StaticResponseFilterConditionReason::AttachedToRoute => "AttachedToRoute",
            StaticResponseFilterConditionReason::NotAttached => "NotAttached",
        }
    }
}

} // verus!
