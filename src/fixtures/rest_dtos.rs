//! Sample DTOs of the REST conventions, one per naming case of the snake_case rule.
use vstd::prelude::*;

verus! {

/// A sample DTO whose serde form carries `rename_all = "camelCase"`.
#[derive(Clone, Debug)]
pub struct BadCamelCaseDto {
    pub id: String,
}

/// A sample DTO whose serde form carries a field renamed to `kebab-case-field`.
#[derive(Clone, Debug)]
pub struct BadFieldKebabCaseDto {
    pub id: String,
}

/// A sample DTO whose serde form carries a field renamed to `SCREAMING-KEBAB-FIELD`.
#[derive(Clone, Debug)]
pub struct BadFieldScreamingKebabCaseDto {
    pub id: String,
}

/// A sample DTO whose serde form carries a field renamed to `UPPERCASE_FIELD`.
#[derive(Clone, Debug)]
pub struct BadFieldUppercaseDto {
    pub id: String,
}

/// A sample DTO whose serde form carries `rename_all = "PascalCase"`.
#[derive(Clone, Debug)]
pub struct BadPascalCaseDto {
    pub id: String,
}

/// A sample DTO whose serde form carries a field renamed to `snake_case_field`.
#[derive(Clone, Debug)]
pub struct GoodFieldSnakeCaseDto {
    pub id: String,
}

/// A sample DTO whose serde form carries `rename_all = "PascalCase"`, declared outside `api/rest`.
#[derive(Clone, Debug)]
pub struct OutsideApiDto {
    pub id: String,
}

} // verus!
