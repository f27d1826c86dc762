//! Sample DTOs on which the naming rules are exercised; their serde forms
//! live beside the host glue.

pub mod layer_dtos;
pub mod rest_dtos;
