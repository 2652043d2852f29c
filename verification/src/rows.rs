//! How product requests become column values of the product tables.

use vstd::prelude::*;
use vstd::string::*;

use crate::domain::{Decimal, TypeDetailsInput};

verus! {

/// The type-specific columns of `product_details`; a product type fills only
/// its own columns and leaves the others empty.
#[derive(Debug)]
pub struct TypeColumns {
    pub fit: Option<String>,
    pub shoe_width: Option<String>,
    pub insole_length_cm: Option<Decimal>,
    pub width_cm: Option<Decimal>,
    pub height_cm: Option<Decimal>,
    pub depth_cm: Option<Decimal>,
    pub handle_type: Option<String>,
    pub bag_size_label: Option<String>,
    pub metal: Option<String>,
    pub stone: Option<String>,
    pub clasp_type: Option<String>,
}

impl TypeColumns {
    /// All columns empty.
    pub open spec fn spec_is_empty(&self) -> bool {
        &&& self.fit is None && self.shoe_width is None && self.insole_length_cm is None
        &&& self.width_cm is None && self.height_cm is None && self.depth_cm is None
        &&& self.handle_type is None && self.bag_size_label is None
        &&& self.metal is None && self.stone is None && self.clasp_type is None
    }

    pub fn empty() -> (c: TypeColumns)
        ensures
            c.spec_is_empty(),
    {
        TypeColumns {
            fit: None,
            shoe_width: None,
            insole_length_cm: None,
            width_cm: None,
            height_cm: None,
            depth_cm: None,
            handle_type: None,
            bag_size_label: None,
            metal: None,
            stone: None,
            clasp_type: None,
        }
    }
}

pub open spec fn same_text(a: Option<String>, b: Option<String>) -> bool {
    match (a, b) {
        (Some(x), Some(y)) => x@ == y@,
        (None, None) => true,
        _ => false,
    }
}

fn copy_text(v: &Option<String>) -> (res: Option<String>)
    ensures
        same_text(res, *v),
{
    match v {
        Some(s) => Some(s.clone()),
        None => None,
    }
}

/// The columns that type details fill: clothing its fit; footwear its width
/// and insole length; bags their dimensions, handle type and size label;
/// jewelry its metal, stone and clasp; accessories nothing.
pub open spec fn columns_match(input: TypeDetailsInput, c: TypeColumns) -> bool {
    match input {
        TypeDetailsInput::Clothing { fit } => {
            &&& same_text(c.fit, fit)
            &&& c.shoe_width is None && c.insole_length_cm is None
            &&& c.width_cm is None && c.height_cm is None && c.depth_cm is None
            &&& c.handle_type is None && c.bag_size_label is None
            &&& c.metal is None && c.stone is None && c.clasp_type is None
        },
        TypeDetailsInput::Footwear { shoe_width, insole_length_cm } => {
            &&& c.fit is None
            &&& same_text(c.shoe_width, shoe_width) && c.insole_length_cm == insole_length_cm
            &&& c.width_cm is None && c.height_cm is None && c.depth_cm is None
            &&& c.handle_type is None && c.bag_size_label is None
            &&& c.metal is None && c.stone is None && c.clasp_type is None
        },
        TypeDetailsInput::Bags { width_cm, height_cm, depth_cm, handle_type, bag_size_label } => {
            &&& c.fit is None && c.shoe_width is None && c.insole_length_cm is None
            &&& c.width_cm == width_cm && c.height_cm == height_cm && c.depth_cm == depth_cm
            &&& same_text(c.handle_type, handle_type) && same_text(c.bag_size_label, bag_size_label)
            &&& c.metal is None && c.stone is None && c.clasp_type is None
        },
        TypeDetailsInput::Jewelry { metal, stone, clasp_type } => {
            &&& c.fit is None && c.shoe_width is None && c.insole_length_cm is None
            &&& c.width_cm is None && c.height_cm is None && c.depth_cm is None
            &&& c.handle_type is None && c.bag_size_label is None
            &&& same_text(c.metal, metal) && same_text(c.stone, stone) && same_text(c.clasp_type, clasp_type)
        },
        TypeDetailsInput::Accessories => c.spec_is_empty(),
    }
}

pub fn extract_type_details(input: &TypeDetailsInput) -> (c: TypeColumns)
    ensures
        columns_match(*input, c),
{
    let mut c = TypeColumns::empty();
    match input {
        TypeDetailsInput::Clothing { fit } => {
            c.fit = copy_text(fit);
        },
        TypeDetailsInput::Footwear { shoe_width, insole_length_cm } => {
            c.shoe_width = copy_text(shoe_width);
            c.insole_length_cm = *insole_length_cm;
        },
        TypeDetailsInput::Bags { width_cm, height_cm, depth_cm, handle_type, bag_size_label } => {
            c.width_cm = *width_cm;
            c.height_cm = *height_cm;
            c.depth_cm = *depth_cm;
            c.handle_type = copy_text(handle_type);
            c.bag_size_label = copy_text(bag_size_label);
        },
        TypeDetailsInput::Jewelry { metal, stone, clasp_type } => {
            c.metal = copy_text(metal);
            c.stone = copy_text(stone);
            c.clasp_type = copy_text(clasp_type);
        },
        TypeDetailsInput::Accessories => {},
    }
    c
}

/// The columns an update writes: those of its type details, or none (the
/// stored values are then kept).
pub fn update_type_columns(input: &Option<TypeDetailsInput>) -> (c: TypeColumns)
    ensures
        match *input {
            Some(td) => columns_match(td, c),
            None => c.spec_is_empty(),
        },
{
    match input {
        Some(td) => extract_type_details(td),
        None => TypeColumns::empty(),
    }
}

/// The status a new product gets when none is given.
pub fn insert_status(status: &Option<String>) -> (s: String)
    ensures
        match *status { Some(v) => s@ == v@, None => s@ == "intake"@ },
{
    match status {
        Some(v) => v.clone(),
        None => String::from_str("intake"),
    }
}

/// The currency a new product gets when none is given.
pub fn insert_currency(currency: &Option<String>) -> (s: String)
    ensures
        match *currency { Some(v) => s@ == v@, None => s@ == "RSD"@ },
{
    match currency {
        Some(v) => v.clone(),
        None => String::from_str("RSD"),
    }
}

/// A flag that was not given is stored as `false`.
pub fn insert_flag(flag: Option<bool>) -> (b: bool)
    ensures
        b == (flag == Some(true)),
{
    match flag {
        Some(b) => b,
        None => false,
    }
}

/// Why an optimistic-lock update touched no row.
#[derive(Debug)]
pub enum UpdateMiss {
    /// The product exists but its version moved on.
    StaleVersion,
    /// No live product has that id.
    NotFound,
}

pub fn update_miss(product_exists: bool) -> (m: UpdateMiss)
    ensures
        product_exists <==> m is StaleVersion,
{
    if product_exists { UpdateMiss::StaleVersion } else { UpdateMiss::NotFound }
}

} // verus!
