//! Decision logic of a probe-based statistics collector: configuration
//! guardrails, probe resolution, and decoding of records read from BPF maps.
pub mod text;
pub mod numbers;
pub mod seqs;
pub mod config;
pub mod guardrail;
pub mod process;
pub mod bpf;
pub mod config_resolver;
pub mod art;
pub mod bpf_map;
pub mod activity_manager;
pub mod probe_resolver;
