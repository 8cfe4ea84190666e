//! Verified core of the Nur USB formatting and boot-media tool.
use vstd::prelude::*;

pub mod browser;
pub mod capture;
pub mod desktop;
pub mod disk_service;
pub mod domain;
pub mod form;
pub mod iso_inspector;
pub mod lint_rules;
pub mod mount_table;
pub mod offset_volume;
pub mod partitioner;
pub mod raw_copier;
pub mod text;
pub mod theme;
pub mod udisks;

verus! {

} // verus!
