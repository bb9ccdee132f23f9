//! The records that the service hands out, and the demand for them.

pub mod address_label;
pub mod label_data;
pub mod work_item;
