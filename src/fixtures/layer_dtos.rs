//! Sample DTOs of the API layer, one per naming case of the DTO rules.
use vstd::prelude::*;

verus! {

/// A sample DTO whose serde form carries a field renamed to `camelCaseField`.
#[derive(Clone, Debug)]
pub struct BadFieldCamelCaseDto {
    pub id: String,
}

/// A sample DTO whose serde form carries a field renamed to `PascalCaseField`.
#[derive(Clone, Debug)]
pub struct BadFieldPascalCaseDto {
    pub id: String,
}

/// A sample DTO whose serde form carries a field renamed to `SCREAMING_SNAKE_FIELD`.
#[derive(Clone, Debug)]
pub struct BadFieldScreamingSnakeCaseDto {
    pub id: String,
}

/// A sample DTO whose serde form carries `rename_all = "lowercase"`.
#[derive(Clone, Debug)]
pub struct BadLowercaseDto {
    pub id: String,
}

/// A sample DTO whose serde form carries `rename_all = "SCREAMING-KEBAB-CASE"`.
#[derive(Clone, Debug)]
pub struct BadScreamingKebabCaseDto {
    pub id: String,
}

/// A sample DTO whose serde form carries `rename_all = "snake_case"`.
#[derive(Clone, Debug)]
pub struct GoodDto {
    pub id: String,
}

/// A sample DTO whose serde form carries no rename at all.
#[derive(Clone, Debug)]
pub struct DefaultDto {
    pub id: String,
}

/// A sample DTO whose serde form carries `rename_all = "PascalCase"`, declared outside `api/rest`.
#[derive(Clone, Debug)]
pub struct OutsideApiDto {
    pub id: String,
}

} // verus!
