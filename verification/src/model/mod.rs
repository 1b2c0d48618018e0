pub mod alertmanager;
pub mod uptime_kuma;
