//! Configuration records of the server and the agent, with their defaults.
use crate::text::owned;
use std::collections::HashMap;
use vstd::prelude::*;

verus! {

/// Configuration of the ingress server.
#[derive(Debug, Clone)]
pub struct IngressConfig {
    pub server: ServerConfig,
    pub ecs: EcsConfig,
    pub routing: RoutingConfig,
    pub logging: LoggingConfig,
}

/// Listener ports, request deadline (seconds) and connection cap.
#[derive(Debug, Clone)]
pub struct ServerConfig {
    pub alb_port: u16,
    pub health_port: u16,
    pub websocket_port: u16,
    pub request_timeout: u64,
    pub max_connections: usize,
}

/// Cluster-based authorization settings.
#[derive(Debug, Clone)]
pub struct EcsConfig {
    pub allowed_clusters: Vec<String>,
    pub region: String,
    pub skip_validation: bool,
    pub discovery_interval: u64,
    pub required_labels: Vec<String>,
}

/// Health checking and balancing settings; times in seconds.
#[derive(Debug, Clone)]
pub struct RoutingConfig {
    pub health_check_interval: u64,
    pub unhealthy_threshold: u64,
    pub load_balancing: LoadBalancingStrategy,
}

/// Logging settings.
#[derive(Debug, Clone)]
pub struct LoggingConfig {
    pub level: String,
    pub json_format: bool,
    pub log_bodies: bool,
}

/// Balancing strategies among healthy candidates.
#[derive(Debug, Clone, Copy, PartialEq, Eq)]
pub enum LoadBalancingStrategy {
    RoundRobin,
    Random,
    LeastConnections,
}

impl Default for LoadBalancingStrategy {
    fn default() -> (r: Self)
        ensures
            r == LoadBalancingStrategy::RoundRobin,
    {
        LoadBalancingStrategy::RoundRobin
    }
}

/// The agent's cluster settings.
#[derive(Debug, Clone)]
pub struct ClusterConfig {
    pub cluster_name: String,
    pub discovery_interval: u64,
    pub default_local_port: u16,
    pub local_host: String,
    pub label_filters: HashMap<String, String>,
}

/// The agent's cloud settings.
#[derive(Debug, Clone)]
pub struct AwsConfig {
    pub region: String,
    pub skip_iam_validation: bool,
    pub profile: Option<String>,
}

pub fn default_alb_port() -> (r: u16)
    ensures
        r == 8080,
{
    8080
}

pub fn default_health_port() -> (r: u16)
    ensures
        r == 8081,
{
    8081
}

pub fn default_websocket_port() -> (r: u16)
    ensures
        r == 8082,
{
    8082
}

pub fn default_request_timeout() -> (r: u64)
    ensures
        r == 30,
{
    30
}

pub fn default_max_connections() -> (r: usize)
    ensures
        r == 1000,
{
    1000
}

pub fn default_aws_region() -> (r: String)
    ensures
        r@ == "us-east-1"@,
{
    owned("us-east-1")
}

pub fn default_discovery_interval() -> (r: u64)
    ensures
        r == 30,
{
    30
}

pub fn default_health_check_interval() -> (r: u64)
    ensures
        r == 30,
{
    30
}

pub fn default_unhealthy_threshold() -> (r: u64)
    ensures
        r == 90,
{
    90
}

pub fn default_log_level() -> (r: String)
    ensures
        r@ == "info"@,
{
    owned("info")
}

pub fn default_heartbeat_interval() -> (r: u64)
    ensures
        r == 10,
{
    10
}

pub fn default_max_retries() -> (r: u32)
    ensures
        r == 5,
{
    5
}

pub fn default_initial_delay() -> (r: u64)
    ensures
        r == 1000,
{
    1000
}

pub fn default_max_delay() -> (r: u64)
    ensures
        r == 30000,
{
    30000
}

pub fn default_local_port() -> (r: u16)
    ensures
        r == 3000,
{
    3000
}

pub fn default_local_host() -> (r: String)
    ensures
        r@ == "localhost"@,
{
    owned("localhost")
}

} // verus!
