//! Catalogue domain types read by the validation and query logic.

use vstd::prelude::*;
use vstd::string::*;

verus! {

/// An exact decimal number `mantissa * 10^-scale`, as the service stores
/// prices and measurements.
#[derive(Clone, Copy, Debug)]
pub struct Decimal {
    pub mantissa: i128,
    pub scale: u32,
}

impl Decimal {
    /// Builds `mantissa * 10^-scale`.
    pub fn new(mantissa: i64, scale: u32) -> (d: Decimal)
        ensures
            d.mantissa == mantissa,
            d.scale == scale,
    {
        Decimal { mantissa: mantissa as i128, scale }
    }

    /// Strictly greater than zero.
    pub open spec fn spec_is_positive(&self) -> bool {
        self.mantissa > 0
    }

    /// Greater than or equal to zero.
    pub open spec fn spec_is_non_negative(&self) -> bool {
        self.mantissa >= 0
    }

    pub fn is_positive(&self) -> (b: bool)
        ensures
            b == self.spec_is_positive(),
    {
        self.mantissa > 0
    }

    pub fn is_non_negative(&self) -> (b: bool)
        ensures
            b == self.spec_is_non_negative(),
    {
        self.mantissa >= 0
    }
}

/// The kind of product a category holds.
#[derive(PartialEq, Eq, Structural, Clone, Copy, Debug)]
pub enum ProductType {
    Clothing,
    Footwear,
    Bags,
    Jewelry,
    Accessories,
}

impl ProductType {
    pub open spec fn spec_debug_name(self) -> Seq<char> {
        match self {
            ProductType::Clothing => "Clothing"@,
            ProductType::Footwear => "Footwear"@,
            ProductType::Bags => "Bags"@,
            ProductType::Jewelry => "Jewelry"@,
            ProductType::Accessories => "Accessories"@,
        }
    }

    /// The variant's name as `{:?}` prints it.
    pub fn debug_name(&self) -> (s: &'static str)
        ensures
            s@ == self.spec_debug_name(),
    {
        match self {
            ProductType::Clothing => "Clothing",
            ProductType::Footwear => "Footwear",
            ProductType::Bags => "Bags",
            ProductType::Jewelry => "Jewelry",
            ProductType::Accessories => "Accessories",
        }
    }
}

/// How sizes are expressed for the products of a category.
#[derive(PartialEq, Eq, Structural, Clone, Copy, Debug)]
pub enum SizeGroup {
    Letter,
    LetterOrNumeric,
    WaistLength,
    Shoe,
    Ring,
    MeasurementCm,
    Hat,
    Dimensions,
    OneSize,
}

impl SizeGroup {
    pub open spec fn spec_debug_name(self) -> Seq<char> {
        match self {
            SizeGroup::Letter => "Letter"@,
            SizeGroup::LetterOrNumeric => "LetterOrNumeric"@,
            SizeGroup::WaistLength => "WaistLength"@,
            SizeGroup::Shoe => "Shoe"@,
            SizeGroup::Ring => "Ring"@,
            SizeGroup::MeasurementCm => "MeasurementCm"@,
            SizeGroup::Hat => "Hat"@,
            SizeGroup::Dimensions => "Dimensions"@,
            SizeGroup::OneSize => "OneSize"@,
        }
    }

    /// The variant's name as `{:?}` prints it.
    pub fn debug_name(&self) -> (s: &'static str)
        ensures
            s@ == self.spec_debug_name(),
    {
        match self {
            SizeGroup::Letter => "Letter",
            SizeGroup::LetterOrNumeric => "LetterOrNumeric",
            SizeGroup::WaistLength => "WaistLength",
            SizeGroup::Shoe => "Shoe",
            SizeGroup::Ring => "Ring",
            SizeGroup::MeasurementCm => "MeasurementCm",
            SizeGroup::Hat => "Hat",
            SizeGroup::Dimensions => "Dimensions",
            SizeGroup::OneSize => "OneSize",
        }
    }
}

/// A catalogue category, as far as product validation reads it.
#[derive(Debug)]
pub struct Category {
    pub id: i32,
    pub product_type: ProductType,
    pub size_group: SizeGroup,
}

/// Type-specific product details; enumerations such as the fit or the
/// handle type are carried as their textual codes.
#[derive(Debug)]
pub enum TypeDetailsInput {
    Clothing { fit: Option<String> },
    Footwear { shoe_width: Option<String>, insole_length_cm: Option<Decimal> },
    Bags {
        width_cm: Option<Decimal>,
        height_cm: Option<Decimal>,
        depth_cm: Option<Decimal>,
        handle_type: Option<String>,
        bag_size_label: Option<String>,
    },
    Jewelry { metal: Option<String>, stone: Option<String>, clasp_type: Option<String> },
    Accessories,
}

impl TypeDetailsInput {
    pub open spec fn spec_product_type(&self) -> ProductType {
        match self {
            TypeDetailsInput::Clothing { .. } => ProductType::Clothing,
            TypeDetailsInput::Footwear { .. } => ProductType::Footwear,
            TypeDetailsInput::Bags { .. } => ProductType::Bags,
            TypeDetailsInput::Jewelry { .. } => ProductType::Jewelry,
            TypeDetailsInput::Accessories => ProductType::Accessories,
        }
    }

    /// The product type these details belong to.
    pub fn product_type(&self) -> (t: ProductType)
        ensures
            t == self.spec_product_type(),
    {
        match self {
            TypeDetailsInput::Clothing { .. } => ProductType::Clothing,
            TypeDetailsInput::Footwear { .. } => ProductType::Footwear,
            TypeDetailsInput::Bags { .. } => ProductType::Bags,
            TypeDetailsInput::Jewelry { .. } => ProductType::Jewelry,
            TypeDetailsInput::Accessories => ProductType::Accessories,
        }
    }
}

/// The size fields of a product.
#[derive(Debug)]
pub struct SizeInput {
    pub size_value: Option<String>,
    pub size_value2: Option<String>,
    pub size_system: Option<String>,
    pub measurement_cm: Option<Decimal>,
}

/// Product details given when a product is created.
#[derive(Debug)]
pub struct CreateProductDetailsRequest {
    pub year_of_release: Option<i32>,
    pub is_collab: Option<bool>,
    pub collab_name: Option<String>,
    pub type_details: TypeDetailsInput,
    pub size: SizeInput,
}

/// Product details given when a product is updated; absent parts are kept.
#[derive(Debug)]
pub struct UpdateProductDetailsRequest {
    pub year_of_release: Option<i32>,
    pub is_collab: Option<bool>,
    pub collab_name: Option<String>,
    pub type_details: Option<TypeDetailsInput>,
    pub size: Option<SizeInput>,
}

/// A request to create a product.
#[derive(Debug)]
pub struct CreateProductRequest {
    pub name: String,
    pub category_id: i32,
    pub purchase_price: Option<Decimal>,
    pub currency: Option<String>,
    pub details: CreateProductDetailsRequest,
}

/// A request to update a product; absent fields are kept.
#[derive(Debug)]
pub struct UpdateProductRequest {
    pub name: Option<String>,
    pub category_id: Option<i32>,
    pub purchase_price: Option<Decimal>,
    pub currency: Option<String>,
    pub details: Option<UpdateProductDetailsRequest>,
}

/// An uploaded file: its bytes and declared content type.
#[derive(Debug)]
pub struct UploadFile {
    pub data: Vec<u8>,
    pub content_type: String,
}

/// Storage of clothing-specific rows; it has no operations of its own yet.
pub trait ClothingRepository: Send + Sync {
}

} // verus!
