//! Project configuration (`.shipwright.yml`).
//!
//! Maps of the configuration file are held as vectors of key/value pairs in
//! file order; floating-point settings are held by their IEEE-754 bit
//! patterns.
use vstd::prelude::*;
use vstd::string::*;

verus! {

/// The whole project configuration.
#[derive(Debug, Clone)]
pub struct Config {
    pub version: u32,
    pub project: ProjectConfig,
    pub build: BuildConfig,
    pub deploy: DeployConfig,
    pub infrastructure: Option<InfrastructureConfig>,
    pub notifications: Option<NotificationsConfig>,
    pub smoke_tests: Option<SmokeTestsConfig>,
}

/// Infrastructure configuration for existing VPS setups.
#[derive(Debug, Clone)]
pub struct InfrastructureConfig {
    /// Deployment strategy: "standalone", "compose", or "auto".
    pub strategy: String,
    /// Directory where projects are deployed.
    pub deploy_dir: Option<String>,
    /// Proxy configuration.
    pub proxy: Option<ProxyConfig>,
    /// Shared resources (databases, redis, ...).
    pub shared_resources: Option<SharedResourcesConfig>,
    /// Docker networks to join.
    pub networks: Vec<String>,
    /// Whether to auto-detect existing infrastructure.
    pub auto_detect: bool,
}

/// Reverse proxy configuration.
#[derive(Debug, Clone)]
pub struct ProxyConfig {
    /// Proxy type: "caddy", "nginx", "traefik", "none".
    pub proxy_type: String,
    pub container_name: Option<String>,
    pub config_path: Option<String>,
    pub auto_update: bool,
    pub reload_command: Option<String>,
}

/// Shared resources configuration.
#[derive(Debug, Clone)]
pub struct SharedResourcesConfig {
    pub postgres: Option<SharedPostgresConfig>,
    pub redis: Option<SharedRedisConfig>,
    pub services: Vec<SharedServiceConfig>,
}

/// A shared PostgreSQL server.
#[derive(Debug, Clone)]
pub struct SharedPostgresConfig {
    pub host: String,
    pub port: u16,
    pub database: String,
    pub user: String,
    pub network: Option<String>,
}

/// A shared Redis server.
#[derive(Debug, Clone)]
pub struct SharedRedisConfig {
    pub host: String,
    pub port: u16,
    pub db: u8,
    pub network: Option<String>,
}

/// Another shared service.
#[derive(Debug, Clone)]
pub struct SharedServiceConfig {
    pub name: String,
    pub host: String,
    pub port: u16,
    pub network: Option<String>,
}

/// Project identity.
#[derive(Debug, Clone)]
pub struct ProjectConfig {
    pub name: String,
    pub framework: Option<String>,
}

/// Build settings.
#[derive(Debug, Clone)]
pub struct BuildConfig {
    pub image: Option<String>,
    pub cache: Option<Vec<String>>,
    pub steps: Vec<String>,
    pub compose_file: Option<String>,
    pub services: Option<Vec<String>>,
    /// Environment variables for build/deployment, in file order.
    pub environment: Option<Vec<(String, String)>>,
}

/// Deployment settings.
#[derive(Debug, Clone)]
pub struct DeployConfig {
    pub deploy_type: String,
    pub registry: Option<RegistryConfig>,
    pub vps: Option<VpsConfig>,
    pub replicas: u32,
    pub health: Option<HealthConfig>,
    pub resources: Option<ResourceConfig>,
    pub smoke_tests: Option<Vec<String>>,
}

/// The target server.
#[derive(Debug, Clone)]
pub struct VpsConfig {
    pub host: String,
    pub user: String,
    pub ssh_key: String,
    pub domain: Option<String>,
    pub services: Vec<ServiceConfig>,
    pub acme_email: Option<String>,
}

/// Domain and routing configuration of one service.
#[derive(Debug, Clone)]
pub struct ServiceConfig {
    /// Service name (matches the docker-compose service name).
    pub name: String,
    /// Domain of the service.
    pub domain: Option<String>,
    /// Port the service listens on inside its container.
    pub port: u16,
    /// Optional path prefix for path-based routing.
    pub path: Option<String>,
    /// Whether the service is exposed through the reverse proxy.
    pub expose: bool,
}

/// Container registry.
#[derive(Debug, Clone)]
pub struct RegistryConfig {
    pub url: String,
    pub auth: Option<RegistryAuthConfig>,
}

/// Registry credentials.
#[derive(Debug, Clone)]
pub struct RegistryAuthConfig {
    pub username: String,
    pub token_file: String,
}

/// Health checking.
#[derive(Debug, Clone)]
pub struct HealthConfig {
    pub http: Option<HttpHealthConfig>,
    pub dependencies: Option<Vec<String>>,
}

/// HTTP health check.
#[derive(Debug, Clone)]
pub struct HttpHealthConfig {
    pub path: String,
    pub expect: u16,
    pub timeout: String,
}

/// Resource limits; `cpu_bits` is the bit pattern of the `f32` CPU share.
#[derive(Debug, Clone)]
pub struct ResourceConfig {
    pub memory: u32,
    pub cpu_bits: u32,
}

/// Notifications.
#[derive(Debug, Clone)]
pub struct NotificationsConfig {
    pub slack: Option<SlackConfig>,
}

/// Slack notifications.
#[derive(Debug, Clone)]
pub struct SlackConfig {
    pub webhook: String,
    pub on: Vec<String>,
}

/// Smoke tests configuration.
#[derive(Debug, Clone)]
pub struct SmokeTestsConfig {
    pub enabled: bool,
    pub fail_on_error: bool,
    pub categories: Vec<String>,
    pub disabled_tests: Vec<String>,
    /// Per-test configuration, keyed by test name, in file order.
    pub test_config: Vec<(String, TestConfig)>,
}

/// Per-test configuration.
#[derive(Debug, Clone)]
pub struct TestConfig {
    pub enabled: Option<bool>,
    pub timeout: Option<String>,
    pub retries: Option<u32>,
}

/// Default deployment strategy: `"auto"`.
pub fn default_deploy_strategy() -> (r: String)
    ensures
        r@ == "auto"@,
{
    String::from_str("auto")
}

/// Default PostgreSQL port.
pub fn default_postgres_port() -> (r: u16)
    ensures
        r == 5432,
{
    5432
}

/// Default Redis port.
pub fn default_redis_port() -> (r: u16)
    ensures
        r == 6379,
{
    6379
}

/// Default number of replicas.
pub fn default_replicas() -> (r: u32)
    ensures
        r == 1,
{
    1
}

/// Default service port.
pub fn default_port() -> (r: u16)
    ensures
        r == 80,
{
    80
}

/// Default for switches that are on unless configured otherwise.
pub fn default_true() -> (r: bool)
    ensures
        r,
{
    true
}

/// Default smoke test categories, in run order.
pub fn default_test_categories() -> (r: Vec<String>)
    ensures
        r@.len() == 3,
        r@[0]@ == "pre_deployment"@,
        r@[1]@ == "post_build"@,
        r@[2]@ == "post_deployment"@,
{
    let mut r = Vec::new();
    r.push(String::from_str("pre_deployment"));
    r.push(String::from_str("post_build"));
    r.push(String::from_str("post_deployment"));
    r
}

} // verus!
