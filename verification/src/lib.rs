//! Verified core of the Carbide fleet tooling: DPF resource naming and
//! labelling, health-pipeline bookkeeping, BMC mock hardware facts,
//! BMC exploration decisions and secret-configuration resolution.

pub mod bmc_attrs;
pub mod bmc_boards;
pub mod bmc_dell;
pub mod bmc_dgx;
pub mod bmc_discovery;
pub mod bmc_gb200;
pub mod bmc_identity;
pub mod bmc_lenovo;
pub mod bmc_lockdown;
pub mod boot_order;
pub mod bmc_mock;
pub mod bmc_plans;
pub mod bmc_power_shelf;
pub mod bmc_redfish;
pub mod bmc_switch;
pub mod collector_plan;
pub mod dpf_deployment;
pub mod dpf_flavor;
pub mod dpf_labeler;
pub mod dpf_naming;
pub mod dpf_sdk;
pub mod dpf_types;
pub mod explore_manager;
pub mod explore_system;
pub mod gauge_table;
pub mod health_metrics;
pub mod label_map;
pub mod leak_events;
pub mod machine_setup;
pub mod nvue_collection;
pub mod pending_reports;
pub mod setup_status;
pub mod service_wiring;
pub mod shared_metrics;
pub mod sink_plan;
pub mod system_model;
pub mod text;
pub mod vault_config;
