//! Resources and the recipes that produce them.
//!
//! A basic resource is made from the charge of one energy cell. A complex
//! resource is made from two other resources and the charge of one cell.
//! A planet can make exactly the resources for which its `Generator` and
//! its `Combinator` hold a recipe, and every resource that exists was paid
//! for with one charge.
//!
//! A resource value carries no data. Its fields are private, so the only
//! way to obtain one is a successful call of a `make_*` or `try_make`
//! method.

use crate::components::energy_cell::{not_charged_message, EnergyCell};
use vstd::prelude::*;
use vstd::string::StringExecFns;

verus! {

/// What all resources have in common: a name, and a way to be written
/// out.
pub trait Resource {
    /// The name of the resource.
    spec fn name(&self) -> Seq<char>;

    /// The resource written out for a reader: its family, then its name.
    spec fn display(&self) -> Seq<char>;

    /// Returns the name of the resource.
    fn to_static_str(&self) -> (name: &'static str)
        ensures
            name@ == self.name(),
    ;

    /// Returns the resource written out for a reader.
    fn to_string(&self) -> (text: String)
        ensures
            text@ == self.display(),
    ;
}

/// Names a basic resource without holding one.
#[derive(Debug, Clone, Copy, PartialEq, Eq, Structural, Hash)]
pub enum BasicResourceType {
    Oxygen,
    Hydrogen,
    Carbon,
    Silicon,
}

/// Names a complex resource without holding one.
#[derive(Debug, Clone, Copy, PartialEq, Eq, Structural, Hash)]
pub enum ComplexResourceType {
    Diamond,
    Water,
    Life,
    Robot,
    Dolphin,
    AIPartner,
}

/// Names a resource of either family without holding one.
#[derive(Debug, Clone, Copy, PartialEq, Eq, Structural, Hash)]
pub enum ResourceType {
    /// A basic resource.
    Basic(BasicResourceType),
    /// A complex resource.
    Complex(ComplexResourceType),
}

impl BasicResourceType {
    /// Tells whether this names `Oxygen`.
    pub fn is_oxygen(&self) -> (is: bool)
        ensures
            is == (*self == BasicResourceType::Oxygen),
    {
        match self {
            BasicResourceType::Oxygen => true,
            _ => false,
        }
    }

    /// Tells whether this names `Hydrogen`.
    pub fn is_hydrogen(&self) -> (is: bool)
        ensures
            is == (*self == BasicResourceType::Hydrogen),
    {
        match self {
            BasicResourceType::Hydrogen => true,
            _ => false,
        }
    }

    /// Tells whether this names `Carbon`.
    pub fn is_carbon(&self) -> (is: bool)
        ensures
            is == (*self == BasicResourceType::Carbon),
    {
        match self {
            BasicResourceType::Carbon => true,
            _ => false,
        }
    }

    /// Tells whether this names `Silicon`.
    pub fn is_silicon(&self) -> (is: bool)
        ensures
            is == (*self == BasicResourceType::Silicon),
    {
        match self {
            BasicResourceType::Silicon => true,
            _ => false,
        }
    }
}

impl ComplexResourceType {
    /// Tells whether this names `Diamond`.
    pub fn is_diamond(&self) -> (is: bool)
        ensures
            is == (*self == ComplexResourceType::Diamond),
    {
        match self {
            ComplexResourceType::Diamond => true,
            _ => false,
        }
    }

    /// Tells whether this names `Water`.
    pub fn is_water(&self) -> (is: bool)
        ensures
            is == (*self == ComplexResourceType::Water),
    {
        match self {
            ComplexResourceType::Water => true,
            _ => false,
        }
    }

    /// Tells whether this names `Life`.
    pub fn is_life(&self) -> (is: bool)
        ensures
            is == (*self == ComplexResourceType::Life),
    {
        match self {
            ComplexResourceType::Life => true,
            _ => false,
        }
    }

    /// Tells whether this names `Robot`.
    pub fn is_robot(&self) -> (is: bool)
        ensures
            is == (*self == ComplexResourceType::Robot),
    {
        match self {
            ComplexResourceType::Robot => true,
            _ => false,
        }
    }

    /// Tells whether this names `Dolphin`.
    pub fn is_dolphin(&self) -> (is: bool)
        ensures
            is == (*self == ComplexResourceType::Dolphin),
    {
        match self {
            ComplexResourceType::Dolphin => true,
            _ => false,
        }
    }

    /// Tells whether this names `AIPartner`.
    pub fn is_aipartner(&self) -> (is: bool)
        ensures
            is == (*self == ComplexResourceType::AIPartner),
    {
        match self {
            ComplexResourceType::AIPartner => true,
            _ => false,
        }
    }
}

impl ResourceType {
    /// The name of `Diamond` among all resources.
    pub fn make_diamond() -> (kind: ResourceType)
        ensures
            kind == ResourceType::Complex(ComplexResourceType::Diamond),
    {
        ResourceType::Complex(ComplexResourceType::Diamond)
    }

    /// The name of `Water` among all resources.
    pub fn make_water() -> (kind: ResourceType)
        ensures
            kind == ResourceType::Complex(ComplexResourceType::Water),
    {
        ResourceType::Complex(ComplexResourceType::Water)
    }

    /// The name of `Life` among all resources.
    pub fn make_life() -> (kind: ResourceType)
        ensures
            kind == ResourceType::Complex(ComplexResourceType::Life),
    {
        ResourceType::Complex(ComplexResourceType::Life)
    }

    /// The name of `Robot` among all resources.
    pub fn make_robot() -> (kind: ResourceType)
        ensures
            kind == ResourceType::Complex(ComplexResourceType::Robot),
    {
        ResourceType::Complex(ComplexResourceType::Robot)
    }

    /// The name of `Dolphin` among all resources.
    pub fn make_dolphin() -> (kind: ResourceType)
        ensures
            kind == ResourceType::Complex(ComplexResourceType::Dolphin),
    {
        ResourceType::Complex(ComplexResourceType::Dolphin)
    }

    /// The name of `AIPartner` among all resources.
    pub fn make_aipartner() -> (kind: ResourceType)
        ensures
            kind == ResourceType::Complex(ComplexResourceType::AIPartner),
    {
        ResourceType::Complex(ComplexResourceType::AIPartner)
    }

    /// Tells whether this names `Diamond`.
    pub fn is_diamond(&self) -> (is: bool)
        ensures
            is == (*self == ResourceType::Complex(ComplexResourceType::Diamond)),
    {
        match self {
            ResourceType::Complex(ComplexResourceType::Diamond) => true,
            _ => false,
        }
    }

    /// Tells whether this names `Water`.
    pub fn is_water(&self) -> (is: bool)
        ensures
            is == (*self == ResourceType::Complex(ComplexResourceType::Water)),
    {
        match self {
            ResourceType::Complex(ComplexResourceType::Water) => true,
            _ => false,
        }
    }

    /// Tells whether this names `Life`.
    pub fn is_life(&self) -> (is: bool)
        ensures
            is == (*self == ResourceType::Complex(ComplexResourceType::Life)),
    {
        match self {
            ResourceType::Complex(ComplexResourceType::Life) => true,
            _ => false,
        }
    }

    /// Tells whether this names `Robot`.
    pub fn is_robot(&self) -> (is: bool)
        ensures
            is == (*self == ResourceType::Complex(ComplexResourceType::Robot)),
    {
        match self {
            ResourceType::Complex(ComplexResourceType::Robot) => true,
            _ => false,
        }
    }

    /// Tells whether this names `Dolphin`.
    pub fn is_dolphin(&self) -> (is: bool)
        ensures
            is == (*self == ResourceType::Complex(ComplexResourceType::Dolphin)),
    {
        match self {
            ResourceType::Complex(ComplexResourceType::Dolphin) => true,
            _ => false,
        }
    }

    /// Tells whether this names `AIPartner`.
    pub fn is_aipartner(&self) -> (is: bool)
        ensures
            is == (*self == ResourceType::Complex(ComplexResourceType::AIPartner)),
    {
        match self {
            ResourceType::Complex(ComplexResourceType::AIPartner) => true,
            _ => false,
        }
    }

    /// The name of `Oxygen` among all resources.
    pub fn make_oxygen() -> (kind: ResourceType)
        ensures
            kind == ResourceType::Basic(BasicResourceType::Oxygen),
    {
        ResourceType::Basic(BasicResourceType::Oxygen)
    }

    /// The name of `Hydrogen` among all resources.
    pub fn make_hydrogen() -> (kind: ResourceType)
        ensures
            kind == ResourceType::Basic(BasicResourceType::Hydrogen),
    {
        ResourceType::Basic(BasicResourceType::Hydrogen)
    }

    /// The name of `Carbon` among all resources.
    pub fn make_carbon() -> (kind: ResourceType)
        ensures
            kind == ResourceType::Basic(BasicResourceType::Carbon),
    {
        ResourceType::Basic(BasicResourceType::Carbon)
    }

    /// The name of `Silicon` among all resources.
    pub fn make_silicon() -> (kind: ResourceType)
        ensures
            kind == ResourceType::Basic(BasicResourceType::Silicon),
    {
        ResourceType::Basic(BasicResourceType::Silicon)
    }

    /// Tells whether this names `Oxygen`.
    pub fn is_oxygen(&self) -> (is: bool)
        ensures
            is == (*self == ResourceType::Basic(BasicResourceType::Oxygen)),
    {
        match self {
            ResourceType::Basic(BasicResourceType::Oxygen) => true,
            _ => false,
        }
    }

    /// Tells whether this names `Hydrogen`.
    pub fn is_hydrogen(&self) -> (is: bool)
        ensures
            is == (*self == ResourceType::Basic(BasicResourceType::Hydrogen)),
    {
        match self {
            ResourceType::Basic(BasicResourceType::Hydrogen) => true,
            _ => false,
        }
    }

    /// Tells whether this names `Carbon`.
    pub fn is_carbon(&self) -> (is: bool)
        ensures
            is == (*self == ResourceType::Basic(BasicResourceType::Carbon)),
    {
        match self {
            ResourceType::Basic(BasicResourceType::Carbon) => true,
            _ => false,
        }
    }

    /// Tells whether this names `Silicon`.
    pub fn is_silicon(&self) -> (is: bool)
        ensures
            is == (*self == ResourceType::Basic(BasicResourceType::Silicon)),
    {
        match self {
            ResourceType::Basic(BasicResourceType::Silicon) => true,
            _ => false,
        }
    }
}

/// The basic resource `Oxygen`.
#[derive(Debug, PartialEq, Eq, Hash)]
pub struct Oxygen {
    _private: (),
}

/// The basic resource `Hydrogen`.
#[derive(Debug, PartialEq, Eq, Hash)]
pub struct Hydrogen {
    _private: (),
}

/// The basic resource `Carbon`.
#[derive(Debug, PartialEq, Eq, Hash)]
pub struct Carbon {
    _private: (),
}

/// The basic resource `Silicon`.
#[derive(Debug, PartialEq, Eq, Hash)]
pub struct Silicon {
    _private: (),
}

/// The complex resource `Diamond`.
#[derive(Debug, PartialEq, Eq, Hash)]
pub struct Diamond {
    _private: (),
}

/// The complex resource `Water`.
#[derive(Debug, PartialEq, Eq, Hash)]
pub struct Water {
    _private: (),
}

/// The complex resource `Life`.
#[derive(Debug, PartialEq, Eq, Hash)]
pub struct Life {
    _private: (),
}

/// The complex resource `Robot`.
#[derive(Debug, PartialEq, Eq, Hash)]
pub struct Robot {
    _private: (),
}

/// The complex resource `Dolphin`.
#[derive(Debug, PartialEq, Eq, Hash)]
pub struct Dolphin {
    _private: (),
}

/// The complex resource `AIPartner`.
#[derive(Debug, PartialEq, Eq, Hash)]
pub struct AIPartner {
    _private: (),
}

/// A basic resource of any kind.
#[derive(Debug, PartialEq, Eq, Hash)]
pub enum BasicResource {
    Oxygen(Oxygen),
    Hydrogen(Hydrogen),
    Carbon(Carbon),
    Silicon(Silicon),
}

/// A complex resource of any kind.
#[derive(Debug, PartialEq, Eq, Hash)]
pub enum ComplexResource {
    Diamond(Diamond),
    Water(Water),
    Life(Life),
    Robot(Robot),
    Dolphin(Dolphin),
    AIPartner(AIPartner),
}

/// A resource of either family.
#[derive(Debug, PartialEq, Eq, Hash)]
pub enum GenericResource {
    /// A basic resource.
    BasicResources(BasicResource),
    /// A complex resource.
    ComplexResources(ComplexResource),
}

/// A request to combine two resources: the variant names the resource
/// asked for and holds the two ingredients that its recipe takes.
#[derive(Debug, PartialEq, Eq, Hash)]
pub enum ComplexResourceRequest {
    Water(Hydrogen, Oxygen),
    Diamond(Carbon, Carbon),
    Life(Water, Carbon),
    Robot(Silicon, Life),
    Dolphin(Water, Life),
    AIPartner(Robot, Diamond),
}

impl Oxygen {
    /// The name of this resource among all resources.
    pub fn to_type(&self) -> (kind: ResourceType)
        ensures
            kind == ResourceType::Basic(BasicResourceType::Oxygen),
    {
        ResourceType::Basic(BasicResourceType::Oxygen)
    }

    /// Wraps this resource as a resource of either family.
    pub fn to_generic(self) -> (generic: GenericResource)
        ensures
            generic == GenericResource::BasicResources(BasicResource::Oxygen(self)),
    {
        GenericResource::BasicResources(BasicResource::Oxygen(self))
    }

    /// Wraps this resource as a basic resource of any kind.
    pub fn to_basic(self) -> (resource: BasicResource)
        ensures
            resource == BasicResource::Oxygen(self),
    {
        BasicResource::Oxygen(self)
    }

    /// The name of this resource among the basic resources.
    pub fn to_basic_type(&self) -> (kind: BasicResourceType)
        ensures
            kind == BasicResourceType::Oxygen,
    {
        BasicResourceType::Oxygen
    }
}

impl Resource for Oxygen {
    open spec fn name(&self) -> Seq<char> {
        "Oxygen"@
    }

    open spec fn display(&self) -> Seq<char> {
        "Basic Resource Oxygen"@
    }

    fn to_static_str(&self) -> (name: &'static str) {
        "Oxygen"
    }

    fn to_string(&self) -> (text: String) {
        String::from_str("Basic Resource Oxygen")
    }
}

impl Hydrogen {
    /// The name of this resource among all resources.
    pub fn to_type(&self) -> (kind: ResourceType)
        ensures
            kind == ResourceType::Basic(BasicResourceType::Hydrogen),
    {
        ResourceType::Basic(BasicResourceType::Hydrogen)
    }

    /// Wraps this resource as a resource of either family.
    pub fn to_generic(self) -> (generic: GenericResource)
        ensures
            generic == GenericResource::BasicResources(BasicResource::Hydrogen(self)),
    {
        GenericResource::BasicResources(BasicResource::Hydrogen(self))
    }

    /// Wraps this resource as a basic resource of any kind.
    pub fn to_basic(self) -> (resource: BasicResource)
        ensures
            resource == BasicResource::Hydrogen(self),
    {
        BasicResource::Hydrogen(self)
    }

    /// The name of this resource among the basic resources.
    pub fn to_basic_type(&self) -> (kind: BasicResourceType)
        ensures
            kind == BasicResourceType::Hydrogen,
    {
        BasicResourceType::Hydrogen
    }
}

impl Resource for Hydrogen {
    open spec fn name(&self) -> Seq<char> {
        "Hydrogen"@
    }

    open spec fn display(&self) -> Seq<char> {
        "Basic Resource Hydrogen"@
    }

    fn to_static_str(&self) -> (name: &'static str) {
        "Hydrogen"
    }

    fn to_string(&self) -> (text: String) {
        String::from_str("Basic Resource Hydrogen")
    }
}

impl Carbon {
    /// The name of this resource among all resources.
    pub fn to_type(&self) -> (kind: ResourceType)
        ensures
            kind == ResourceType::Basic(BasicResourceType::Carbon),
    {
        ResourceType::Basic(BasicResourceType::Carbon)
    }

    /// Wraps this resource as a resource of either family.
    pub fn to_generic(self) -> (generic: GenericResource)
        ensures
            generic == GenericResource::BasicResources(BasicResource::Carbon(self)),
    {
        GenericResource::BasicResources(BasicResource::Carbon(self))
    }

    /// Wraps this resource as a basic resource of any kind.
    pub fn to_basic(self) -> (resource: BasicResource)
        ensures
            resource == BasicResource::Carbon(self),
    {
        BasicResource::Carbon(self)
    }

    /// The name of this resource among the basic resources.
    pub fn to_basic_type(&self) -> (kind: BasicResourceType)
        ensures
            kind == BasicResourceType::Carbon,
    {
        BasicResourceType::Carbon
    }
}

impl Resource for Carbon {
    open spec fn name(&self) -> Seq<char> {
        "Carbon"@
    }

    open spec fn display(&self) -> Seq<char> {
        "Basic Resource Carbon"@
    }

    fn to_static_str(&self) -> (name: &'static str) {
        "Carbon"
    }

    fn to_string(&self) -> (text: String) {
        String::from_str("Basic Resource Carbon")
    }
}

impl Silicon {
    /// The name of this resource among all resources.
    pub fn to_type(&self) -> (kind: ResourceType)
        ensures
            kind == ResourceType::Basic(BasicResourceType::Silicon),
    {
        ResourceType::Basic(BasicResourceType::Silicon)
    }

    /// Wraps this resource as a resource of either family.
    pub fn to_generic(self) -> (generic: GenericResource)
        ensures
            generic == GenericResource::BasicResources(BasicResource::Silicon(self)),
    {
        GenericResource::BasicResources(BasicResource::Silicon(self))
    }

    /// Wraps this resource as a basic resource of any kind.
    pub fn to_basic(self) -> (resource: BasicResource)
        ensures
            resource == BasicResource::Silicon(self),
    {
        BasicResource::Silicon(self)
    }

    /// The name of this resource among the basic resources.
    pub fn to_basic_type(&self) -> (kind: BasicResourceType)
        ensures
            kind == BasicResourceType::Silicon,
    {
        BasicResourceType::Silicon
    }
}

impl Resource for Silicon {
    open spec fn name(&self) -> Seq<char> {
        "Silicon"@
    }

    open spec fn display(&self) -> Seq<char> {
        "Basic Resource Silicon"@
    }

    fn to_static_str(&self) -> (name: &'static str) {
        "Silicon"
    }

    fn to_string(&self) -> (text: String) {
        String::from_str("Basic Resource Silicon")
    }
}

impl Diamond {
    /// The name of this resource among all resources.
    pub fn to_type(&self) -> (kind: ResourceType)
        ensures
            kind == ResourceType::Complex(ComplexResourceType::Diamond),
    {
        ResourceType::Complex(ComplexResourceType::Diamond)
    }

    /// Wraps this resource as a resource of either family.
    pub fn to_generic(self) -> (generic: GenericResource)
        ensures
            generic == GenericResource::ComplexResources(ComplexResource::Diamond(self)),
    {
        GenericResource::ComplexResources(ComplexResource::Diamond(self))
    }

    /// Wraps this resource as a complex resource of any kind.
    pub fn to_complex(self) -> (resource: ComplexResource)
        ensures
            resource == ComplexResource::Diamond(self),
    {
        ComplexResource::Diamond(self)
    }

    /// The name of this resource among the complex resources.
    pub fn to_complex_type(&self) -> (kind: ComplexResourceType)
        ensures
            kind == ComplexResourceType::Diamond,
    {
        ComplexResourceType::Diamond
    }
}

impl Resource for Diamond {
    open spec fn name(&self) -> Seq<char> {
        "Diamond"@
    }

    open spec fn display(&self) -> Seq<char> {
        "Complex Resource Diamond"@
    }

    fn to_static_str(&self) -> (name: &'static str) {
        "Diamond"
    }

    fn to_string(&self) -> (text: String) {
        String::from_str("Complex Resource Diamond")
    }
}

impl Water {
    /// The name of this resource among all resources.
    pub fn to_type(&self) -> (kind: ResourceType)
        ensures
            kind == ResourceType::Complex(ComplexResourceType::Water),
    {
        ResourceType::Complex(ComplexResourceType::Water)
    }

    /// Wraps this resource as a resource of either family.
    pub fn to_generic(self) -> (generic: GenericResource)
        ensures
            generic == GenericResource::ComplexResources(ComplexResource::Water(self)),
    {
        GenericResource::ComplexResources(ComplexResource::Water(self))
    }

    /// Wraps this resource as a complex resource of any kind.
    pub fn to_complex(self) -> (resource: ComplexResource)
        ensures
            resource == ComplexResource::Water(self),
    {
        ComplexResource::Water(self)
    }

    /// The name of this resource among the complex resources.
    pub fn to_complex_type(&self) -> (kind: ComplexResourceType)
        ensures
            kind == ComplexResourceType::Water,
    {
        ComplexResourceType::Water
    }
}

impl Resource for Water {
    open spec fn name(&self) -> Seq<char> {
        "Water"@
    }

    open spec fn display(&self) -> Seq<char> {
        "Complex Resource Water"@
    }

    fn to_static_str(&self) -> (name: &'static str) {
        "Water"
    }

    fn to_string(&self) -> (text: String) {
        String::from_str("Complex Resource Water")
    }
}

impl Life {
    /// The name of this resource among all resources.
    pub fn to_type(&self) -> (kind: ResourceType)
        ensures
            kind == ResourceType::Complex(ComplexResourceType::Life),
    {
        ResourceType::Complex(ComplexResourceType::Life)
    }

    /// Wraps this resource as a resource of either family.
    pub fn to_generic(self) -> (generic: GenericResource)
        ensures
            generic == GenericResource::ComplexResources(ComplexResource::Life(self)),
    {
        GenericResource::ComplexResources(ComplexResource::Life(self))
    }

    /// Wraps this resource as a complex resource of any kind.
    pub fn to_complex(self) -> (resource: ComplexResource)
        ensures
            resource == ComplexResource::Life(self),
    {
        ComplexResource::Life(self)
    }

    /// The name of this resource among the complex resources.
    pub fn to_complex_type(&self) -> (kind: ComplexResourceType)
        ensures
            kind == ComplexResourceType::Life,
    {
        ComplexResourceType::Life
    }
}

impl Resource for Life {
    open spec fn name(&self) -> Seq<char> {
        "Life"@
    }

    open spec fn display(&self) -> Seq<char> {
        "Complex Resource Life"@
    }

    fn to_static_str(&self) -> (name: &'static str) {
        "Life"
    }

    fn to_string(&self) -> (text: String) {
        String::from_str("Complex Resource Life")
    }
}

impl Robot {
    /// The name of this resource among all resources.
    pub fn to_type(&self) -> (kind: ResourceType)
        ensures
            kind == ResourceType::Complex(ComplexResourceType::Robot),
    {
        ResourceType::Complex(ComplexResourceType::Robot)
    }

    /// Wraps this resource as a resource of either family.
    pub fn to_generic(self) -> (generic: GenericResource)
        ensures
            generic == GenericResource::ComplexResources(ComplexResource::Robot(self)),
    {
        GenericResource::ComplexResources(ComplexResource::Robot(self))
    }

    /// Wraps this resource as a complex resource of any kind.
    pub fn to_complex(self) -> (resource: ComplexResource)
        ensures
            resource == ComplexResource::Robot(self),
    {
        ComplexResource::Robot(self)
    }

    /// The name of this resource among the complex resources.
    pub fn to_complex_type(&self) -> (kind: ComplexResourceType)
        ensures
            kind == ComplexResourceType::Robot,
    {
        ComplexResourceType::Robot
    }
}

impl Resource for Robot {
    open spec fn name(&self) -> Seq<char> {
        "Robot"@
    }

    open spec fn display(&self) -> Seq<char> {
        "Complex Resource Robot"@
    }

    fn to_static_str(&self) -> (name: &'static str) {
        "Robot"
    }

    fn to_string(&self) -> (text: String) {
        String::from_str("Complex Resource Robot")
    }
}

impl Dolphin {
    /// The name of this resource among all resources.
    pub fn to_type(&self) -> (kind: ResourceType)
        ensures
            kind == ResourceType::Complex(ComplexResourceType::Dolphin),
    {
        ResourceType::Complex(ComplexResourceType::Dolphin)
    }

    /// Wraps this resource as a resource of either family.
    pub fn to_generic(self) -> (generic: GenericResource)
        ensures
            generic == GenericResource::ComplexResources(ComplexResource::Dolphin(self)),
    {
        GenericResource::ComplexResources(ComplexResource::Dolphin(self))
    }

    /// Wraps this resource as a complex resource of any kind.
    pub fn to_complex(self) -> (resource: ComplexResource)
        ensures
            resource == ComplexResource::Dolphin(self),
    {
        ComplexResource::Dolphin(self)
    }

    /// The name of this resource among the complex resources.
    pub fn to_complex_type(&self) -> (kind: ComplexResourceType)
        ensures
            kind == ComplexResourceType::Dolphin,
    {
        ComplexResourceType::Dolphin
    }
}

impl Resource for Dolphin {
    open spec fn name(&self) -> Seq<char> {
        "Dolphin"@
    }

    open spec fn display(&self) -> Seq<char> {
        "Complex Resource Dolphin"@
    }

    fn to_static_str(&self) -> (name: &'static str) {
        "Dolphin"
    }

    fn to_string(&self) -> (text: String) {
        String::from_str("Complex Resource Dolphin")
    }
}

impl AIPartner {
    /// The name of this resource among all resources.
    pub fn to_type(&self) -> (kind: ResourceType)
        ensures
            kind == ResourceType::Complex(ComplexResourceType::AIPartner),
    {
        ResourceType::Complex(ComplexResourceType::AIPartner)
    }

    /// Wraps this resource as a resource of either family.
    pub fn to_generic(self) -> (generic: GenericResource)
        ensures
            generic == GenericResource::ComplexResources(ComplexResource::AIPartner(self)),
    {
        GenericResource::ComplexResources(ComplexResource::AIPartner(self))
    }

    /// Wraps this resource as a complex resource of any kind.
    pub fn to_complex(self) -> (resource: ComplexResource)
        ensures
            resource == ComplexResource::AIPartner(self),
    {
        ComplexResource::AIPartner(self)
    }

    /// The name of this resource among the complex resources.
    pub fn to_complex_type(&self) -> (kind: ComplexResourceType)
        ensures
            kind == ComplexResourceType::AIPartner,
    {
        ComplexResourceType::AIPartner
    }
}

impl Resource for AIPartner {
    open spec fn name(&self) -> Seq<char> {
        "AIPartner"@
    }

    open spec fn display(&self) -> Seq<char> {
        "Complex Resource AIPartner"@
    }

    fn to_static_str(&self) -> (name: &'static str) {
        "AIPartner"
    }

    fn to_string(&self) -> (text: String) {
        String::from_str("Complex Resource AIPartner")
    }
}

/// The text of the error that a conversion to another kind reports.
pub open spec fn different_type_message() -> Seq<char> {
    "Different type found"@
}

impl BasicResource {
    /// The kind of this resource.
    pub open spec fn kind(&self) -> BasicResourceType {
        match self {
            BasicResource::Oxygen(_) => BasicResourceType::Oxygen,
            BasicResource::Hydrogen(_) => BasicResourceType::Hydrogen,
            BasicResource::Carbon(_) => BasicResourceType::Carbon,
            BasicResource::Silicon(_) => BasicResourceType::Silicon,
        }
    }

    /// Returns the kind of this resource.
    pub fn get_type(&self) -> (kind: BasicResourceType)
        ensures
            kind == self.kind(),
    {
        match self {
            BasicResource::Oxygen(_) => BasicResourceType::Oxygen,
            BasicResource::Hydrogen(_) => BasicResourceType::Hydrogen,
            BasicResource::Carbon(_) => BasicResourceType::Carbon,
            BasicResource::Silicon(_) => BasicResourceType::Silicon,
        }
    }

    /// Unwraps the resource if it is an `Oxygen`, and reports
    /// `different_type_message()` if it is not.
    pub fn to_oxygen(self) -> (result: Result<Oxygen, String>)
        ensures
            match self {
                BasicResource::Oxygen(inner) => result == Ok::<Oxygen, String>(inner),
                _ => result.is_err() && result.unwrap_err()@ == different_type_message(),
            },
    {
        match self {
            BasicResource::Oxygen(inner) => Ok(inner),
            _ => Err(String::from_str("Different type found")),
        }
    }

    /// Unwraps the resource if it is a `Hydrogen`, and reports
    /// `different_type_message()` if it is not.
    pub fn to_hydrogen(self) -> (result: Result<Hydrogen, String>)
        ensures
            match self {
                BasicResource::Hydrogen(inner) => result == Ok::<Hydrogen, String>(inner),
                _ => result.is_err() && result.unwrap_err()@ == different_type_message(),
            },
    {
        match self {
            BasicResource::Hydrogen(inner) => Ok(inner),
            _ => Err(String::from_str("Different type found")),
        }
    }

    /// Unwraps the resource if it is a `Carbon`, and reports
    /// `different_type_message()` if it is not.
    pub fn to_carbon(self) -> (result: Result<Carbon, String>)
        ensures
            match self {
                BasicResource::Carbon(inner) => result == Ok::<Carbon, String>(inner),
                _ => result.is_err() && result.unwrap_err()@ == different_type_message(),
            },
    {
        match self {
            BasicResource::Carbon(inner) => Ok(inner),
            _ => Err(String::from_str("Different type found")),
        }
    }

    /// Unwraps the resource if it is a `Silicon`, and reports
    /// `different_type_message()` if it is not.
    pub fn to_silicon(self) -> (result: Result<Silicon, String>)
        ensures
            match self {
                BasicResource::Silicon(inner) => result == Ok::<Silicon, String>(inner),
                _ => result.is_err() && result.unwrap_err()@ == different_type_message(),
            },
    {
        match self {
            BasicResource::Silicon(inner) => Ok(inner),
            _ => Err(String::from_str("Different type found")),
        }
    }
}

impl ComplexResource {
    /// The kind of this resource.
    pub open spec fn kind(&self) -> ComplexResourceType {
        match self {
            ComplexResource::Diamond(_) => ComplexResourceType::Diamond,
            ComplexResource::Water(_) => ComplexResourceType::Water,
            ComplexResource::Life(_) => ComplexResourceType::Life,
            ComplexResource::Robot(_) => ComplexResourceType::Robot,
            ComplexResource::Dolphin(_) => ComplexResourceType::Dolphin,
            ComplexResource::AIPartner(_) => ComplexResourceType::AIPartner,
        }
    }

    /// Returns the kind of this resource.
    pub fn get_type(&self) -> (kind: ComplexResourceType)
        ensures
            kind == self.kind(),
    {
        match self {
            ComplexResource::Diamond(_) => ComplexResourceType::Diamond,
            ComplexResource::Water(_) => ComplexResourceType::Water,
            ComplexResource::Life(_) => ComplexResourceType::Life,
            ComplexResource::Robot(_) => ComplexResourceType::Robot,
            ComplexResource::Dolphin(_) => ComplexResourceType::Dolphin,
            ComplexResource::AIPartner(_) => ComplexResourceType::AIPartner,
        }
    }

    /// Unwraps the resource if it is a `Diamond`, and reports
    /// `different_type_message()` if it is not.
    pub fn to_diamond(self) -> (result: Result<Diamond, String>)
        ensures
            match self {
                ComplexResource::Diamond(inner) => result == Ok::<Diamond, String>(inner),
                _ => result.is_err() && result.unwrap_err()@ == different_type_message(),
            },
    {
        match self {
            ComplexResource::Diamond(inner) => Ok(inner),
            _ => Err(String::from_str("Different type found")),
        }
    }

    /// Unwraps the resource if it is a `Water`, and reports
    /// `different_type_message()` if it is not.
    pub fn to_water(self) -> (result: Result<Water, String>)
        ensures
            match self {
                ComplexResource::Water(inner) => result == Ok::<Water, String>(inner),
                _ => result.is_err() && result.unwrap_err()@ == different_type_message(),
            },
    {
        match self {
            ComplexResource::Water(inner) => Ok(inner),
            _ => Err(String::from_str("Different type found")),
        }
    }

    /// Unwraps the resource if it is a `Life`, and reports
    /// `different_type_message()` if it is not.
    pub fn to_life(self) -> (result: Result<Life, String>)
        ensures
            match self {
                ComplexResource::Life(inner) => result == Ok::<Life, String>(inner),
                _ => result.is_err() && result.unwrap_err()@ == different_type_message(),
            },
    {
        match self {
            ComplexResource::Life(inner) => Ok(inner),
            _ => Err(String::from_str("Different type found")),
        }
    }

    /// Unwraps the resource if it is a `Robot`, and reports
    /// `different_type_message()` if it is not.
    pub fn to_robot(self) -> (result: Result<Robot, String>)
        ensures
            match self {
                ComplexResource::Robot(inner) => result == Ok::<Robot, String>(inner),
                _ => result.is_err() && result.unwrap_err()@ == different_type_message(),
            },
    {
        match self {
            ComplexResource::Robot(inner) => Ok(inner),
            _ => Err(String::from_str("Different type found")),
        }
    }

    /// Unwraps the resource if it is a `Dolphin`, and reports
    /// `different_type_message()` if it is not.
    pub fn to_dolphin(self) -> (result: Result<Dolphin, String>)
        ensures
            match self {
                ComplexResource::Dolphin(inner) => result == Ok::<Dolphin, String>(inner),
                _ => result.is_err() && result.unwrap_err()@ == different_type_message(),
            },
    {
        match self {
            ComplexResource::Dolphin(inner) => Ok(inner),
            _ => Err(String::from_str("Different type found")),
        }
    }

    /// Unwraps the resource if it is an `AIPartner`, and reports
    /// `different_type_message()` if it is not.
    pub fn to_aipartner(self) -> (result: Result<AIPartner, String>)
        ensures
            match self {
                ComplexResource::AIPartner(inner) => result == Ok::<AIPartner, String>(inner),
                _ => result.is_err() && result.unwrap_err()@ == different_type_message(),
            },
    {
        match self {
            ComplexResource::AIPartner(inner) => Ok(inner),
            _ => Err(String::from_str("Different type found")),
        }
    }
}

impl GenericResource {
    /// The kind of this resource.
    pub open spec fn kind(&self) -> ResourceType {
        match self {
            GenericResource::BasicResources(basic) => ResourceType::Basic(basic.kind()),
            GenericResource::ComplexResources(complex) => ResourceType::Complex(complex.kind()),
        }
    }

    /// Returns the kind of this resource.
    pub fn get_type(&self) -> (kind: ResourceType)
        ensures
            kind == self.kind(),
    {
        match self {
            GenericResource::BasicResources(basic) => ResourceType::Basic(basic.get_type()),
            GenericResource::ComplexResources(complex) => ResourceType::Complex(complex.get_type()),
        }
    }

    /// Unwraps the resource if it is a `Diamond`, and reports
    /// `different_type_message()` if it is not.
    pub fn to_diamond(self) -> (result: Result<Diamond, String>)
        ensures
            match self {
                GenericResource::ComplexResources(ComplexResource::Diamond(inner)) => result
                    == Ok::<Diamond, String>(inner),
                _ => result.is_err() && result.unwrap_err()@ == different_type_message(),
            },
    {
        match self {
            GenericResource::ComplexResources(ComplexResource::Diamond(inner)) => Ok(inner),
            _ => Err(String::from_str("Different type found")),
        }
    }

    /// Unwraps the resource if it is a `Water`, and reports
    /// `different_type_message()` if it is not.
    pub fn to_water(self) -> (result: Result<Water, String>)
        ensures
            match self {
                GenericResource::ComplexResources(ComplexResource::Water(inner)) => result
                    == Ok::<Water, String>(inner),
                _ => result.is_err() && result.unwrap_err()@ == different_type_message(),
            },
    {
        match self {
            GenericResource::ComplexResources(ComplexResource::Water(inner)) => Ok(inner),
            _ => Err(String::from_str("Different type found")),
        }
    }

    /// Unwraps the resource if it is a `Life`, and reports
    /// `different_type_message()` if it is not.
    pub fn to_life(self) -> (result: Result<Life, String>)
        ensures
            match self {
                GenericResource::ComplexResources(ComplexResource::Life(inner)) => result
                    == Ok::<Life, String>(inner),
                _ => result.is_err() && result.unwrap_err()@ == different_type_message(),
            },
    {
        match self {
            GenericResource::ComplexResources(ComplexResource::Life(inner)) => Ok(inner),
            _ => Err(String::from_str("Different type found")),
        }
    }

    /// Unwraps the resource if it is a `Robot`, and reports
    /// `different_type_message()` if it is not.
    pub fn to_robot(self) -> (result: Result<Robot, String>)
        ensures
            match self {
                GenericResource::ComplexResources(ComplexResource::Robot(inner)) => result
                    == Ok::<Robot, String>(inner),
                _ => result.is_err() && result.unwrap_err()@ == different_type_message(),
            },
    {
        match self {
            GenericResource::ComplexResources(ComplexResource::Robot(inner)) => Ok(inner),
            _ => Err(String::from_str("Different type found")),
        }
    }

    /// Unwraps the resource if it is a `Dolphin`, and reports
    /// `different_type_message()` if it is not.
    pub fn to_dolphin(self) -> (result: Result<Dolphin, String>)
        ensures
            match self {
                GenericResource::ComplexResources(ComplexResource::Dolphin(inner)) => result
                    == Ok::<Dolphin, String>(inner),
                _ => result.is_err() && result.unwrap_err()@ == different_type_message(),
            },
    {
        match self {
            GenericResource::ComplexResources(ComplexResource::Dolphin(inner)) => Ok(inner),
            _ => Err(String::from_str("Different type found")),
        }
    }

    /// Unwraps the resource if it is an `AIPartner`, and reports
    /// `different_type_message()` if it is not.
    pub fn to_aipartner(self) -> (result: Result<AIPartner, String>)
        ensures
            match self {
                GenericResource::ComplexResources(ComplexResource::AIPartner(inner)) => result
                    == Ok::<AIPartner, String>(inner),
                _ => result.is_err() && result.unwrap_err()@ == different_type_message(),
            },
    {
        match self {
            GenericResource::ComplexResources(ComplexResource::AIPartner(inner)) => Ok(inner),
            _ => Err(String::from_str("Different type found")),
        }
    }

    /// Unwraps the resource if it is an `Oxygen`, and reports
    /// `different_type_message()` if it is not.
    pub fn to_oxygen(self) -> (result: Result<Oxygen, String>)
        ensures
            match self {
                GenericResource::BasicResources(BasicResource::Oxygen(inner)) => result
                    == Ok::<Oxygen, String>(inner),
                _ => result.is_err() && result.unwrap_err()@ == different_type_message(),
            },
    {
        match self {
            GenericResource::BasicResources(BasicResource::Oxygen(inner)) => Ok(inner),
            _ => Err(String::from_str("Different type found")),
        }
    }

    /// Unwraps the resource if it is a `Hydrogen`, and reports
    /// `different_type_message()` if it is not.
    pub fn to_hydrogen(self) -> (result: Result<Hydrogen, String>)
        ensures
            match self {
                GenericResource::BasicResources(BasicResource::Hydrogen(inner)) => result
                    == Ok::<Hydrogen, String>(inner),
                _ => result.is_err() && result.unwrap_err()@ == different_type_message(),
            },
    {
        match self {
            GenericResource::BasicResources(BasicResource::Hydrogen(inner)) => Ok(inner),
            _ => Err(String::from_str("Different type found")),
        }
    }

    /// Unwraps the resource if it is a `Carbon`, and reports
    /// `different_type_message()` if it is not.
    pub fn to_carbon(self) -> (result: Result<Carbon, String>)
        ensures
            match self {
                GenericResource::BasicResources(BasicResource::Carbon(inner)) => result
                    == Ok::<Carbon, String>(inner),
                _ => result.is_err() && result.unwrap_err()@ == different_type_message(),
            },
    {
        match self {
            GenericResource::BasicResources(BasicResource::Carbon(inner)) => Ok(inner),
            _ => Err(String::from_str("Different type found")),
        }
    }

    /// Unwraps the resource if it is a `Silicon`, and reports
    /// `different_type_message()` if it is not.
    pub fn to_silicon(self) -> (result: Result<Silicon, String>)
        ensures
            match self {
                GenericResource::BasicResources(BasicResource::Silicon(inner)) => result
                    == Ok::<Silicon, String>(inner),
                _ => result.is_err() && result.unwrap_err()@ == different_type_message(),
            },
    {
        match self {
            GenericResource::BasicResources(BasicResource::Silicon(inner)) => Ok(inner),
            _ => Err(String::from_str("Different type found")),
        }
    }
}

impl ComplexResourceRequest {
    /// The resource that the request asks for.
    pub open spec fn kind(&self) -> ComplexResourceType {
        match self {
            ComplexResourceRequest::Water(_, _) => ComplexResourceType::Water,
            ComplexResourceRequest::Diamond(_, _) => ComplexResourceType::Diamond,
            ComplexResourceRequest::Life(_, _) => ComplexResourceType::Life,
            ComplexResourceRequest::Robot(_, _) => ComplexResourceType::Robot,
            ComplexResourceRequest::Dolphin(_, _) => ComplexResourceType::Dolphin,
            ComplexResourceRequest::AIPartner(_, _) => ComplexResourceType::AIPartner,
        }
    }

    /// The first ingredient of the request.
    pub open spec fn lhs(&self) -> GenericResource {
        match self {
            ComplexResourceRequest::Water(lhs, _) => GenericResource::BasicResources(BasicResource::Hydrogen(*lhs)),
            ComplexResourceRequest::Diamond(lhs, _) => GenericResource::BasicResources(BasicResource::Carbon(*lhs)),
            ComplexResourceRequest::Life(lhs, _) => GenericResource::ComplexResources(ComplexResource::Water(*lhs)),
            ComplexResourceRequest::Robot(lhs, _) => GenericResource::BasicResources(BasicResource::Silicon(*lhs)),
            ComplexResourceRequest::Dolphin(lhs, _) => GenericResource::ComplexResources(ComplexResource::Water(*lhs)),
            ComplexResourceRequest::AIPartner(lhs, _) => GenericResource::ComplexResources(ComplexResource::Robot(*lhs)),
        }
    }

    /// The second ingredient of the request.
    pub open spec fn rhs(&self) -> GenericResource {
        match self {
            ComplexResourceRequest::Water(_, rhs) => GenericResource::BasicResources(BasicResource::Oxygen(*rhs)),
            ComplexResourceRequest::Diamond(_, rhs) => GenericResource::BasicResources(BasicResource::Carbon(*rhs)),
            ComplexResourceRequest::Life(_, rhs) => GenericResource::BasicResources(BasicResource::Carbon(*rhs)),
            ComplexResourceRequest::Robot(_, rhs) => GenericResource::ComplexResources(ComplexResource::Life(*rhs)),
            ComplexResourceRequest::Dolphin(_, rhs) => GenericResource::ComplexResources(ComplexResource::Life(*rhs)),
            ComplexResourceRequest::AIPartner(_, rhs) => GenericResource::ComplexResources(ComplexResource::Diamond(*rhs)),
        }
    }
}

/// The text of the error that adding a basic recipe twice reports.
pub open spec fn duplicate_basic_recipe_message(kind: BasicResourceType) -> Seq<char> {
    match kind {
        BasicResourceType::Oxygen => "There was already a recipe for Oxygen, the value should never be updated"@,
        BasicResourceType::Hydrogen => "There was already a recipe for Hydrogen, the value should never be updated"@,
        BasicResourceType::Carbon => "There was already a recipe for Carbon, the value should never be updated"@,
        BasicResourceType::Silicon => "There was already a recipe for Silicon, the value should never be updated"@,
    }
}

/// The text of the error that adding a complex recipe twice reports.
pub open spec fn duplicate_complex_recipe_message(kind: ComplexResourceType) -> Seq<char> {
    match kind {
        ComplexResourceType::Diamond => "There was already a recipe for Diamond, the value should never be updated"@,
        ComplexResourceType::Water => "There was already a recipe for Water, the value should never be updated"@,
        ComplexResourceType::Life => "There was already a recipe for Life, the value should never be updated"@,
        ComplexResourceType::Robot => "There was already a recipe for Robot, the value should never be updated"@,
        ComplexResourceType::Dolphin => "There was already a recipe for Dolphin, the value should never be updated"@,
        ComplexResourceType::AIPartner => "There was already a recipe for AIPartner, the value should never be updated"@,
    }
}

/// The text of the error that a `make_*` method of a generator without the
/// recipe reports.
pub open spec fn no_basic_recipe_message(kind: BasicResourceType) -> Seq<char> {
    match kind {
        BasicResourceType::Oxygen => "there isn't a recipe for Oxygen"@,
        BasicResourceType::Hydrogen => "there isn't a recipe for Hydrogen"@,
        BasicResourceType::Carbon => "there isn't a recipe for Carbon"@,
        BasicResourceType::Silicon => "there isn't a recipe for Silicon"@,
    }
}

/// The text of the error that a `make_*` method of a combinator without the
/// recipe reports.
pub open spec fn no_complex_recipe_message(kind: ComplexResourceType) -> Seq<char> {
    match kind {
        ComplexResourceType::Diamond => "there isn't a recipe for Diamond"@,
        ComplexResourceType::Water => "there isn't a recipe for Water"@,
        ComplexResourceType::Life => "there isn't a recipe for Life"@,
        ComplexResourceType::Robot => "there isn't a recipe for Robot"@,
        ComplexResourceType::Dolphin => "there isn't a recipe for Dolphin"@,
        ComplexResourceType::AIPartner => "there isn't a recipe for AIPartner"@,
    }
}

/// The text of the error that `Generator::try_make` reports for a resource
/// without a recipe. The name stands in quotation marks.
pub open spec fn missing_basic_recipe_message(kind: BasicResourceType) -> Seq<char> {
    match kind {
        BasicResourceType::Oxygen => "Missing recipe for \"Oxygen\""@,
        BasicResourceType::Hydrogen => "Missing recipe for \"Hydrogen\""@,
        BasicResourceType::Carbon => "Missing recipe for \"Carbon\""@,
        BasicResourceType::Silicon => "Missing recipe for \"Silicon\""@,
    }
}

/// The text of the error that `Combinator::try_make` reports for a resource
/// without a recipe. The name stands in quotation marks.
pub open spec fn unknown_complex_recipe_message(kind: ComplexResourceType) -> Seq<char> {
    match kind {
        ComplexResourceType::Diamond => "there isn't a recipe for \"Diamond\""@,
        ComplexResourceType::Water => "there isn't a recipe for \"Water\""@,
        ComplexResourceType::Life => "there isn't a recipe for \"Life\""@,
        ComplexResourceType::Robot => "there isn't a recipe for \"Robot\""@,
        ComplexResourceType::Dolphin => "there isn't a recipe for \"Dolphin\""@,
        ComplexResourceType::AIPartner => "there isn't a recipe for \"AIPartner\""@,
    }
}

/// The text of the error that `Generator::try_make` reports for an empty
/// cell.
pub open spec fn energy_not_charged_message() -> Seq<char> {
    "The energy is not charged"@
}

fn duplicate_basic_recipe_message_text(kind: BasicResourceType) -> (text: String)
    ensures
        text@ == duplicate_basic_recipe_message(kind),
{
    match kind {
        BasicResourceType::Oxygen => String::from_str("There was already a recipe for Oxygen, the value should never be updated"),
        BasicResourceType::Hydrogen => String::from_str("There was already a recipe for Hydrogen, the value should never be updated"),
        BasicResourceType::Carbon => String::from_str("There was already a recipe for Carbon, the value should never be updated"),
        BasicResourceType::Silicon => String::from_str("There was already a recipe for Silicon, the value should never be updated"),
    }
}

fn duplicate_complex_recipe_message_text(kind: ComplexResourceType) -> (text: String)
    ensures
        text@ == duplicate_complex_recipe_message(kind),
{
    match kind {
        ComplexResourceType::Diamond => String::from_str("There was already a recipe for Diamond, the value should never be updated"),
        ComplexResourceType::Water => String::from_str("There was already a recipe for Water, the value should never be updated"),
        ComplexResourceType::Life => String::from_str("There was already a recipe for Life, the value should never be updated"),
        ComplexResourceType::Robot => String::from_str("There was already a recipe for Robot, the value should never be updated"),
        ComplexResourceType::Dolphin => String::from_str("There was already a recipe for Dolphin, the value should never be updated"),
        ComplexResourceType::AIPartner => String::from_str("There was already a recipe for AIPartner, the value should never be updated"),
    }
}

fn no_basic_recipe_message_text(kind: BasicResourceType) -> (text: String)
    ensures
        text@ == no_basic_recipe_message(kind),
{
    match kind {
        BasicResourceType::Oxygen => String::from_str("there isn't a recipe for Oxygen"),
        BasicResourceType::Hydrogen => String::from_str("there isn't a recipe for Hydrogen"),
        BasicResourceType::Carbon => String::from_str("there isn't a recipe for Carbon"),
        BasicResourceType::Silicon => String::from_str("there isn't a recipe for Silicon"),
    }
}

fn no_complex_recipe_message_text(kind: ComplexResourceType) -> (text: String)
    ensures
        text@ == no_complex_recipe_message(kind),
{
    match kind {
        ComplexResourceType::Diamond => String::from_str("there isn't a recipe for Diamond"),
        ComplexResourceType::Water => String::from_str("there isn't a recipe for Water"),
        ComplexResourceType::Life => String::from_str("there isn't a recipe for Life"),
        ComplexResourceType::Robot => String::from_str("there isn't a recipe for Robot"),
        ComplexResourceType::Dolphin => String::from_str("there isn't a recipe for Dolphin"),
        ComplexResourceType::AIPartner => String::from_str("there isn't a recipe for AIPartner"),
    }
}

fn missing_basic_recipe_message_text(kind: BasicResourceType) -> (text: String)
    ensures
        text@ == missing_basic_recipe_message(kind),
{
    match kind {
        BasicResourceType::Oxygen => String::from_str("Missing recipe for \"Oxygen\""),
        BasicResourceType::Hydrogen => String::from_str("Missing recipe for \"Hydrogen\""),
        BasicResourceType::Carbon => String::from_str("Missing recipe for \"Carbon\""),
        BasicResourceType::Silicon => String::from_str("Missing recipe for \"Silicon\""),
    }
}

fn unknown_complex_recipe_message_text(kind: ComplexResourceType) -> (text: String)
    ensures
        text@ == unknown_complex_recipe_message(kind),
{
    match kind {
        ComplexResourceType::Diamond => String::from_str("there isn't a recipe for \"Diamond\""),
        ComplexResourceType::Water => String::from_str("there isn't a recipe for \"Water\""),
        ComplexResourceType::Life => String::from_str("there isn't a recipe for \"Life\""),
        ComplexResourceType::Robot => String::from_str("there isn't a recipe for \"Robot\""),
        ComplexResourceType::Dolphin => String::from_str("there isn't a recipe for \"Dolphin\""),
        ComplexResourceType::AIPartner => String::from_str("there isn't a recipe for \"AIPartner\""),
    }
}

/// The recipes of a planet for basic resources.
///
/// The view of a generator is the set of resources that it can make. The
/// set is filled while the planet is built and never changes afterwards.
#[derive(Debug)]
pub struct Generator {
    set: Vec<BasicResourceType>,
}

/// The recipes of a planet for complex resources.
///
/// The view of a combinator is the set of resources that it can make. The
/// set is filled while the planet is built and never changes afterwards.
#[derive(Debug)]
pub struct Combinator {
    set: Vec<ComplexResourceType>,
}

impl View for Generator {
    type V = Set<BasicResourceType>;

    closed spec fn view(&self) -> Set<BasicResourceType> {
        self.set@.to_set()
    }
}

impl View for Combinator {
    type V = Set<ComplexResourceType>;

    closed spec fn view(&self) -> Set<ComplexResourceType> {
        self.set@.to_set()
    }
}

/// What a `make_*` method of a generator does for the resource `kind`:
/// `before` and `after` are the charge of the cell, `result` is what the
/// caller gets. The recipe is checked before the charge.
pub open spec fn generated<T>(
    recipes: Set<BasicResourceType>,
    kind: BasicResourceType,
    before: bool,
    after: bool,
    result: Result<T, String>,
) -> bool {
    if !recipes.contains(kind) {
        &&& after == before
        &&& result is Err
        &&& result->Err_0@ == no_basic_recipe_message(kind)
    } else if !before {
        &&& !after
        &&& result is Err
        &&& result->Err_0@ == not_charged_message()
    } else {
        &&& !after
        &&& result is Ok
    }
}

/// What a `make_*` method of a combinator does for the resource `kind`
/// and the ingredients `lhs` and `rhs`: `before` and `after` are the
/// charge of the cell, `result` is what the caller gets. The recipe is
/// checked before the charge, and every failure hands both ingredients
/// back.
pub open spec fn combined<T, L, R>(
    recipes: Set<ComplexResourceType>,
    kind: ComplexResourceType,
    lhs: L,
    rhs: R,
    before: bool,
    after: bool,
    result: Result<T, (String, L, R)>,
) -> bool {
    if !recipes.contains(kind) {
        &&& after == before
        &&& result is Err
        &&& result->Err_0.0@ == no_complex_recipe_message(kind)
        &&& result->Err_0.1 == lhs
        &&& result->Err_0.2 == rhs
    } else if !before {
        &&& !after
        &&& result is Err
        &&& result->Err_0.0@ == not_charged_message()
        &&& result->Err_0.1 == lhs
        &&& result->Err_0.2 == rhs
    } else {
        &&& !after
        &&& result is Ok
    }
}

impl Generator {
    #[verifier::type_invariant]
    spec fn recipes_are_distinct(&self) -> bool {
        self.set@.no_duplicates()
    }

    /// Creates a generator without recipes.
    pub fn new() -> (generator: Generator)
        ensures
            generator@ == Set::<BasicResourceType>::empty(),
    {
        let generator = Generator { set: Vec::new() };
        assert(generator.set@.to_set() =~= Set::<BasicResourceType>::empty());
        generator
    }

    /// Tells whether the generator holds the recipe for `basic`.
    pub fn contains(&self, basic: BasicResourceType) -> (found: bool)
        ensures
            found == self@.contains(basic),
    {
        let mut i: usize = 0;
        while i < self.set.len()
            invariant
                i <= self.set.len(),
                forall|j: int| 0 <= j < i ==> self.set@[j] != basic,
            decreases self.set.len() - i,
        {
            if self.set[i] == basic {
                return true;
            }
            i += 1;
        }
        false
    }

    /// Adds the recipe for `basic`.
    ///
    /// Succeeds exactly when the recipe is new. A recipe that is already
    /// there is reported with `duplicate_basic_recipe_message(basic)`, and
    /// the generator stays as it was.
    pub fn add(&mut self, basic: BasicResourceType) -> (result: Result<(), String>)
        ensures
            result.is_ok() <==> !old(self)@.contains(basic),
            result.is_ok() ==> final(self)@ == old(self)@.insert(basic),
            result.is_err() ==> final(self)@ == old(self)@ && result.unwrap_err()@
                == duplicate_basic_recipe_message(basic),
    {
        proof {
            use_type_invariant(&*self);
        }
        if self.contains(basic) {
            Err(duplicate_basic_recipe_message_text(basic))
        } else {
            let mut set = self.all_available_recipes();
            proof {
                set@.lemma_push_to_set_commute(basic);
            }
            set.push(basic);
            self.set = set;
            Ok(())
        }
    }

    /// Returns the recipes of the generator, each of them once.
    pub fn all_available_recipes(&self) -> (recipes: Vec<BasicResourceType>)
        ensures
            recipes@.to_set() == self@,
            recipes@.no_duplicates(),
            recipes@.len() == self@.len(),
    {
        proof {
            use_type_invariant(self);
            self.set@.unique_seq_to_set();
        }
        let mut recipes: Vec<BasicResourceType> = Vec::new();
        let mut i: usize = 0;
        while i < self.set.len()
            invariant
                i <= self.set.len(),
                recipes@ == self.set@.take(i as int),
            decreases self.set.len() - i,
        {
            recipes.push(self.set[i]);
            assert(self.set@.take(i + 1) =~= self.set@.take(i as int).push(self.set@[i as int]));
            i += 1;
        }
        assert(self.set@.take(i as int) =~= self.set@);
        recipes
    }
}

impl Combinator {
    #[verifier::type_invariant]
    spec fn recipes_are_distinct(&self) -> bool {
        self.set@.no_duplicates()
    }

    /// Creates a combinator without recipes.
    pub fn new() -> (combinator: Combinator)
        ensures
            combinator@ == Set::<ComplexResourceType>::empty(),
    {
        let combinator = Combinator { set: Vec::new() };
        assert(combinator.set@.to_set() =~= Set::<ComplexResourceType>::empty());
        combinator
    }

    /// Tells whether the combinator holds the recipe for `complex`.
    pub fn contains(&self, complex: ComplexResourceType) -> (found: bool)
        ensures
            found == self@.contains(complex),
    {
        let mut i: usize = 0;
        while i < self.set.len()
            invariant
                i <= self.set.len(),
                forall|j: int| 0 <= j < i ==> self.set@[j] != complex,
            decreases self.set.len() - i,
        {
            if self.set[i] == complex {
                return true;
            }
            i += 1;
        }
        false
    }

    /// Adds the recipe for `complex`.
    ///
    /// Succeeds exactly when the recipe is new. A recipe that is already
    /// there is reported with `duplicate_complex_recipe_message(complex)`,
    /// and the combinator stays as it was.
    pub fn add(&mut self, complex: ComplexResourceType) -> (result: Result<(), String>)
        ensures
            result.is_ok() <==> !old(self)@.contains(complex),
            result.is_ok() ==> final(self)@ == old(self)@.insert(complex),
            result.is_err() ==> final(self)@ == old(self)@ && result.unwrap_err()@
                == duplicate_complex_recipe_message(complex),
    {
        proof {
            use_type_invariant(&*self);
        }
        if self.contains(complex) {
            Err(duplicate_complex_recipe_message_text(complex))
        } else {
            let mut set = self.all_available_recipes();
            proof {
                set@.lemma_push_to_set_commute(complex);
            }
            set.push(complex);
            self.set = set;
            Ok(())
        }
    }

    /// Returns the recipes of the combinator, each of them once.
    pub fn all_available_recipes(&self) -> (recipes: Vec<ComplexResourceType>)
        ensures
            recipes@.to_set() == self@,
            recipes@.no_duplicates(),
            recipes@.len() == self@.len(),
    {
        proof {
            use_type_invariant(self);
            self.set@.unique_seq_to_set();
        }
        let mut recipes: Vec<ComplexResourceType> = Vec::new();
        let mut i: usize = 0;
        while i < self.set.len()
            invariant
                i <= self.set.len(),
                recipes@ == self.set@.take(i as int),
            decreases self.set.len() - i,
        {
            recipes.push(self.set[i]);
            assert(self.set@.take(i + 1) =~= self.set@.take(i as int).push(self.set@[i as int]));
            i += 1;
        }
        assert(self.set@.take(i as int) =~= self.set@);
        recipes
    }
}

impl Default for Generator {
    fn default() -> (generator: Generator)
        ensures
            generator@ == Set::<BasicResourceType>::empty(),
    {
        Generator::new()
    }
}

impl Default for Combinator {
    fn default() -> (combinator: Combinator)
        ensures
            combinator@ == Set::<ComplexResourceType>::empty(),
    {
        Combinator::new()
    }
}

/// Makes an `Oxygen` from the charge of `energy_cell`.
fn generate_oxygen(energy_cell: &mut EnergyCell) -> (result: Result<Oxygen, String>)
    ensures
        !final(energy_cell)@,
        result.is_ok() <==> old(energy_cell)@,
        result.is_err() ==> result.unwrap_err()@ == not_charged_message(),
{
    match energy_cell.discharge() {
        Ok(()) => Ok(Oxygen { _private: () }),
        Err(e) => Err(e),
    }
}

/// Makes a `Hydrogen` from the charge of `energy_cell`.
fn generate_hydrogen(energy_cell: &mut EnergyCell) -> (result: Result<Hydrogen, String>)
    ensures
        !final(energy_cell)@,
        result.is_ok() <==> old(energy_cell)@,
        result.is_err() ==> result.unwrap_err()@ == not_charged_message(),
{
    match energy_cell.discharge() {
        Ok(()) => Ok(Hydrogen { _private: () }),
        Err(e) => Err(e),
    }
}

/// Makes a `Carbon` from the charge of `energy_cell`.
fn generate_carbon(energy_cell: &mut EnergyCell) -> (result: Result<Carbon, String>)
    ensures
        !final(energy_cell)@,
        result.is_ok() <==> old(energy_cell)@,
        result.is_err() ==> result.unwrap_err()@ == not_charged_message(),
{
    match energy_cell.discharge() {
        Ok(()) => Ok(Carbon { _private: () }),
        Err(e) => Err(e),
    }
}

/// Makes a `Silicon` from the charge of `energy_cell`.
fn generate_silicon(energy_cell: &mut EnergyCell) -> (result: Result<Silicon, String>)
    ensures
        !final(energy_cell)@,
        result.is_ok() <==> old(energy_cell)@,
        result.is_err() ==> result.unwrap_err()@ == not_charged_message(),
{
    match energy_cell.discharge() {
        Ok(()) => Ok(Silicon { _private: () }),
        Err(e) => Err(e),
    }
}

/// Combines `r1` and `r2` into a `Water` with the charge of `energy_cell`.
/// On an empty cell both ingredients come back with the error.
fn water_fn(r1: Hydrogen, r2: Oxygen, energy_cell: &mut EnergyCell) -> (result: Result<
    Water,
    (String, Hydrogen, Oxygen),
>)
    ensures
        !final(energy_cell)@,
        result.is_ok() <==> old(energy_cell)@,
        result.is_err() ==> result.unwrap_err() == (result.unwrap_err().0, r1, r2)
            && result.unwrap_err().0@ == not_charged_message(),
{
    match energy_cell.discharge() {
        Ok(()) => Ok(Water { _private: () }),
        Err(e) => Err((e, r1, r2)),
    }
}

/// Combines `r1` and `r2` into a `Diamond` with the charge of `energy_cell`.
/// On an empty cell both ingredients come back with the error.
fn diamond_fn(r1: Carbon, r2: Carbon, energy_cell: &mut EnergyCell) -> (result: Result<
    Diamond,
    (String, Carbon, Carbon),
>)
    ensures
        !final(energy_cell)@,
        result.is_ok() <==> old(energy_cell)@,
        result.is_err() ==> result.unwrap_err() == (result.unwrap_err().0, r1, r2)
            && result.unwrap_err().0@ == not_charged_message(),
{
    match energy_cell.discharge() {
        Ok(()) => Ok(Diamond { _private: () }),
        Err(e) => Err((e, r1, r2)),
    }
}

/// Combines `r1` and `r2` into a `Life` with the charge of `energy_cell`.
/// On an empty cell both ingredients come back with the error.
fn life_fn(r1: Water, r2: Carbon, energy_cell: &mut EnergyCell) -> (result: Result<
    Life,
    (String, Water, Carbon),
>)
    ensures
        !final(energy_cell)@,
        result.is_ok() <==> old(energy_cell)@,
        result.is_err() ==> result.unwrap_err() == (result.unwrap_err().0, r1, r2)
            && result.unwrap_err().0@ == not_charged_message(),
{
    match energy_cell.discharge() {
        Ok(()) => Ok(Life { _private: () }),
        Err(e) => Err((e, r1, r2)),
    }
}

/// Combines `r1` and `r2` into a `Robot` with the charge of `energy_cell`.
/// On an empty cell both ingredients come back with the error.
fn robot_fn(r1: Silicon, r2: Life, energy_cell: &mut EnergyCell) -> (result: Result<
    Robot,
    (String, Silicon, Life),
>)
    ensures
        !final(energy_cell)@,
        result.is_ok() <==> old(energy_cell)@,
        result.is_err() ==> result.unwrap_err() == (result.unwrap_err().0, r1, r2)
            && result.unwrap_err().0@ == not_charged_message(),
{
    match energy_cell.discharge() {
        Ok(()) => Ok(Robot { _private: () }),
        Err(e) => Err((e, r1, r2)),
    }
}

/// Combines `r1` and `r2` into a `Dolphin` with the charge of `energy_cell`.
/// On an empty cell both ingredients come back with the error.
fn dolphin_fn(r1: Water, r2: Life, energy_cell: &mut EnergyCell) -> (result: Result<
    Dolphin,
    (String, Water, Life),
>)
    ensures
        !final(energy_cell)@,
        result.is_ok() <==> old(energy_cell)@,
        result.is_err() ==> result.unwrap_err() == (result.unwrap_err().0, r1, r2)
            && result.unwrap_err().0@ == not_charged_message(),
{
    match energy_cell.discharge() {
        Ok(()) => Ok(Dolphin { _private: () }),
        Err(e) => Err((e, r1, r2)),
    }
}

/// Combines `r1` and `r2` into an `AIPartner` with the charge of `energy_cell`.
/// On an empty cell both ingredients come back with the error.
fn aipartner_fn(r1: Robot, r2: Diamond, energy_cell: &mut EnergyCell) -> (result: Result<
    AIPartner,
    (String, Robot, Diamond),
>)
    ensures
        !final(energy_cell)@,
        result.is_ok() <==> old(energy_cell)@,
        result.is_err() ==> result.unwrap_err() == (result.unwrap_err().0, r1, r2)
            && result.unwrap_err().0@ == not_charged_message(),
{
    match energy_cell.discharge() {
        Ok(()) => Ok(AIPartner { _private: () }),
        Err(e) => Err((e, r1, r2)),
    }
}

impl Generator {
    /// Makes an `Oxygen` from the charge of `energy_cell`.
    ///
    /// The recipe is looked up first: without it the cell is left as it
    /// was. With the recipe the cell is discharged, and the resource is
    /// made exactly when the cell held a charge.
    pub fn make_oxygen(&self, energy_cell: &mut EnergyCell) -> (result: Result<Oxygen, String>)
        ensures
            result.is_ok() <==> self@.contains(BasicResourceType::Oxygen) && old(energy_cell)@,
            generated(
                self@,
                BasicResourceType::Oxygen,
                old(energy_cell)@,
                final(energy_cell)@,
                result,
            ),
    {
        if self.contains(BasicResourceType::Oxygen) {
            generate_oxygen(energy_cell)
        } else {
            Err(no_basic_recipe_message_text(BasicResourceType::Oxygen))
        }
    }

    /// Makes a `Hydrogen` from the charge of `energy_cell`.
    ///
    /// The recipe is looked up first: without it the cell is left as it
    /// was. With the recipe the cell is discharged, and the resource is
    /// made exactly when the cell held a charge.
    pub fn make_hydrogen(&self, energy_cell: &mut EnergyCell) -> (result: Result<Hydrogen, String>)
        ensures
            result.is_ok() <==> self@.contains(BasicResourceType::Hydrogen) && old(energy_cell)@,
            generated(
                self@,
                BasicResourceType::Hydrogen,
                old(energy_cell)@,
                final(energy_cell)@,
                result,
            ),
    {
        if self.contains(BasicResourceType::Hydrogen) {
            generate_hydrogen(energy_cell)
        } else {
            Err(no_basic_recipe_message_text(BasicResourceType::Hydrogen))
        }
    }

    /// Makes a `Carbon` from the charge of `energy_cell`.
    ///
    /// The recipe is looked up first: without it the cell is left as it
    /// was. With the recipe the cell is discharged, and the resource is
    /// made exactly when the cell held a charge.
    pub fn make_carbon(&self, energy_cell: &mut EnergyCell) -> (result: Result<Carbon, String>)
        ensures
            result.is_ok() <==> self@.contains(BasicResourceType::Carbon) && old(energy_cell)@,
            generated(
                self@,
                BasicResourceType::Carbon,
                old(energy_cell)@,
                final(energy_cell)@,
                result,
            ),
    {
        if self.contains(BasicResourceType::Carbon) {
            generate_carbon(energy_cell)
        } else {
            Err(no_basic_recipe_message_text(BasicResourceType::Carbon))
        }
    }

    /// Makes a `Silicon` from the charge of `energy_cell`.
    ///
    /// The recipe is looked up first: without it the cell is left as it
    /// was. With the recipe the cell is discharged, and the resource is
    /// made exactly when the cell held a charge.
    pub fn make_silicon(&self, energy_cell: &mut EnergyCell) -> (result: Result<Silicon, String>)
        ensures
            result.is_ok() <==> self@.contains(BasicResourceType::Silicon) && old(energy_cell)@,
            generated(
                self@,
                BasicResourceType::Silicon,
                old(energy_cell)@,
                final(energy_cell)@,
                result,
            ),
    {
        if self.contains(BasicResourceType::Silicon) {
            generate_silicon(energy_cell)
        } else {
            Err(no_basic_recipe_message_text(BasicResourceType::Silicon))
        }
    }

    /// Makes the basic resource `req` from the charge of `energy_cell`.
    ///
    /// The charge is checked first, then the recipe: an empty cell is
    /// reported with `energy_not_charged_message()`, a missing recipe with
    /// `missing_basic_recipe_message(req)`. Either failure leaves the cell
    /// as it was. Otherwise the cell is discharged and the resource made.
    pub fn try_make(&self, req: BasicResourceType, energy_cell: &mut EnergyCell) -> (result: Result<
        BasicResource,
        String,
    >)
        ensures
            result.is_ok() <==> old(energy_cell)@ && self@.contains(req),
            match result {
                Ok(resource) => resource.kind() == req && !final(energy_cell)@,
                Err(e) => {
                    &&& final(energy_cell)@ == old(energy_cell)@
                    &&& e@ == if !old(energy_cell)@ {
                        energy_not_charged_message()
                    } else {
                        missing_basic_recipe_message(req)
                    }
                },
            },
    {
        if !energy_cell.is_charged() {
            return Err(String::from_str("The energy is not charged"));
        }
        if !self.contains(req) {
            return Err(missing_basic_recipe_message_text(req));
        }
        match req {
            BasicResourceType::Oxygen => match generate_oxygen(energy_cell) {
                Ok(resource) => Ok(resource.to_basic()),
                Err(e) => Err(e),
            },
            BasicResourceType::Hydrogen => match generate_hydrogen(energy_cell) {
                Ok(resource) => Ok(resource.to_basic()),
                Err(e) => Err(e),
            },
            BasicResourceType::Carbon => match generate_carbon(energy_cell) {
                Ok(resource) => Ok(resource.to_basic()),
                Err(e) => Err(e),
            },
            BasicResourceType::Silicon => match generate_silicon(energy_cell) {
                Ok(resource) => Ok(resource.to_basic()),
                Err(e) => Err(e),
            },
        }
    }
}

impl Combinator {
    /// Combines `r1` and `r2` into a `Water` with the charge of `energy_cell`.
    ///
    /// The recipe is looked up first: without it the cell is left as it
    /// was. With the recipe the cell is discharged, and the resource is
    /// made exactly when the cell held a charge. Whenever the call fails,
    /// both ingredients come back with the error.
    pub fn make_water(&self, r1: Hydrogen, r2: Oxygen, energy_cell: &mut EnergyCell) -> (result: Result<
        Water,
        (String, Hydrogen, Oxygen),
    >)
        ensures
            result.is_ok() <==> self@.contains(ComplexResourceType::Water) && old(energy_cell)@,
            combined(
                self@,
                ComplexResourceType::Water,
                r1,
                r2,
                old(energy_cell)@,
                final(energy_cell)@,
                result,
            ),
    {
        if self.contains(ComplexResourceType::Water) {
            water_fn(r1, r2, energy_cell)
        } else {
            Err((no_complex_recipe_message_text(ComplexResourceType::Water), r1, r2))
        }
    }

    /// Combines `r1` and `r2` into a `Diamond` with the charge of `energy_cell`.
    ///
    /// The recipe is looked up first: without it the cell is left as it
    /// was. With the recipe the cell is discharged, and the resource is
    /// made exactly when the cell held a charge. Whenever the call fails,
    /// both ingredients come back with the error.
    pub fn make_diamond(&self, r1: Carbon, r2: Carbon, energy_cell: &mut EnergyCell) -> (result: Result<
        Diamond,
        (String, Carbon, Carbon),
    >)
        ensures
            result.is_ok() <==> self@.contains(ComplexResourceType::Diamond) && old(energy_cell)@,
            combined(
                self@,
                ComplexResourceType::Diamond,
                r1,
                r2,
                old(energy_cell)@,
                final(energy_cell)@,
                result,
            ),
    {
        if self.contains(ComplexResourceType::Diamond) {
            diamond_fn(r1, r2, energy_cell)
        } else {
            Err((no_complex_recipe_message_text(ComplexResourceType::Diamond), r1, r2))
        }
    }

    /// Combines `r1` and `r2` into a `Life` with the charge of `energy_cell`.
    ///
    /// The recipe is looked up first: without it the cell is left as it
    /// was. With the recipe the cell is discharged, and the resource is
    /// made exactly when the cell held a charge. Whenever the call fails,
    /// both ingredients come back with the error.
    pub fn make_life(&self, r1: Water, r2: Carbon, energy_cell: &mut EnergyCell) -> (result: Result<
        Life,
        (String, Water, Carbon),
    >)
        ensures
            result.is_ok() <==> self@.contains(ComplexResourceType::Life) && old(energy_cell)@,
            combined(
                self@,
                ComplexResourceType::Life,
                r1,
                r2,
                old(energy_cell)@,
                final(energy_cell)@,
                result,
            ),
    {
        if self.contains(ComplexResourceType::Life) {
            life_fn(r1, r2, energy_cell)
        } else {
            Err((no_complex_recipe_message_text(ComplexResourceType::Life), r1, r2))
        }
    }

    /// Combines `r1` and `r2` into a `Robot` with the charge of `energy_cell`.
    ///
    /// The recipe is looked up first: without it the cell is left as it
    /// was. With the recipe the cell is discharged, and the resource is
    /// made exactly when the cell held a charge. Whenever the call fails,
    /// both ingredients come back with the error.
    pub fn make_robot(&self, r1: Silicon, r2: Life, energy_cell: &mut EnergyCell) -> (result: Result<
        Robot,
        (String, Silicon, Life),
    >)
        ensures
            result.is_ok() <==> self@.contains(ComplexResourceType::Robot) && old(energy_cell)@,
            combined(
                self@,
                ComplexResourceType::Robot,
                r1,
                r2,
                old(energy_cell)@,
                final(energy_cell)@,
                result,
            ),
    {
        if self.contains(ComplexResourceType::Robot) {
            robot_fn(r1, r2, energy_cell)
        } else {
            Err((no_complex_recipe_message_text(ComplexResourceType::Robot), r1, r2))
        }
    }

    /// Combines `r1` and `r2` into a `Dolphin` with the charge of `energy_cell`.
    ///
    /// The recipe is looked up first: without it the cell is left as it
    /// was. With the recipe the cell is discharged, and the resource is
    /// made exactly when the cell held a charge. Whenever the call fails,
    /// both ingredients come back with the error.
    pub fn make_dolphin(&self, r1: Water, r2: Life, energy_cell: &mut EnergyCell) -> (result: Result<
        Dolphin,
        (String, Water, Life),
    >)
        ensures
            result.is_ok() <==> self@.contains(ComplexResourceType::Dolphin) && old(energy_cell)@,
            combined(
                self@,
                ComplexResourceType::Dolphin,
                r1,
                r2,
                old(energy_cell)@,
                final(energy_cell)@,
                result,
            ),
    {
        if self.contains(ComplexResourceType::Dolphin) {
            dolphin_fn(r1, r2, energy_cell)
        } else {
            Err((no_complex_recipe_message_text(ComplexResourceType::Dolphin), r1, r2))
        }
    }

    /// Combines `r1` and `r2` into an `AIPartner` with the charge of `energy_cell`.
    ///
    /// The recipe is looked up first: without it the cell is left as it
    /// was. With the recipe the cell is discharged, and the resource is
    /// made exactly when the cell held a charge. Whenever the call fails,
    /// both ingredients come back with the error.
    pub fn make_aipartner(&self, r1: Robot, r2: Diamond, energy_cell: &mut EnergyCell) -> (result: Result<
        AIPartner,
        (String, Robot, Diamond),
    >)
        ensures
            result.is_ok() <==> self@.contains(ComplexResourceType::AIPartner) && old(energy_cell)@,
            combined(
                self@,
                ComplexResourceType::AIPartner,
                r1,
                r2,
                old(energy_cell)@,
                final(energy_cell)@,
                result,
            ),
    {
        if self.contains(ComplexResourceType::AIPartner) {
            aipartner_fn(r1, r2, energy_cell)
        } else {
            Err((no_complex_recipe_message_text(ComplexResourceType::AIPartner), r1, r2))
        }
    }

    /// Makes the complex resource that `req` asks for, from its two
    /// ingredients and the charge of `energy_cell`.
    ///
    /// The charge is checked first, then the recipe: an empty cell is
    /// reported with `not_charged_message()`, a missing recipe with
    /// `unknown_complex_recipe_message(req.kind())`. Either failure leaves
    /// the cell as it was and hands both ingredients back. Otherwise the
    /// cell is discharged and the resource made.
    pub fn try_make(&self, req: ComplexResourceRequest, energy_cell: &mut EnergyCell) -> (result:
        Result<ComplexResource, (String, GenericResource, GenericResource)>)
        ensures
            result.is_ok() <==> old(energy_cell)@ && self@.contains(req.kind()),
            match result {
                Ok(resource) => resource.kind() == req.kind() && !final(energy_cell)@,
                Err((e, lhs, rhs)) => {
                    &&& final(energy_cell)@ == old(energy_cell)@
                    &&& lhs == req.lhs()
                    &&& rhs == req.rhs()
                    &&& e@ == if !old(energy_cell)@ {
                        not_charged_message()
                    } else {
                        unknown_complex_recipe_message(req.kind())
                    }
                },
            },
    {
        let charged = energy_cell.is_charged();
        match req {
            ComplexResourceRequest::Water(r1, r2) => {
                if !charged {
                    Err((String::from_str("EnergyCell not charged!"), r1.to_generic(), r2.to_generic()))
                } else if !self.contains(ComplexResourceType::Water) {
                    Err(
                        (
                            unknown_complex_recipe_message_text(ComplexResourceType::Water),
                            r1.to_generic(),
                            r2.to_generic(),
                        ),
                    )
                } else {
                    match water_fn(r1, r2, energy_cell) {
                        Ok(resource) => Ok(resource.to_complex()),
                        Err((e, r1, r2)) => Err((e, r1.to_generic(), r2.to_generic())),
                    }
                }
            },
            ComplexResourceRequest::Diamond(r1, r2) => {
                if !charged {
                    Err((String::from_str("EnergyCell not charged!"), r1.to_generic(), r2.to_generic()))
                } else if !self.contains(ComplexResourceType::Diamond) {
                    Err(
                        (
                            unknown_complex_recipe_message_text(ComplexResourceType::Diamond),
                            r1.to_generic(),
                            r2.to_generic(),
                        ),
                    )
                } else {
                    match diamond_fn(r1, r2, energy_cell) {
                        Ok(resource) => Ok(resource.to_complex()),
                        Err((e, r1, r2)) => Err((e, r1.to_generic(), r2.to_generic())),
                    }
                }
            },
            ComplexResourceRequest::Life(r1, r2) => {
                if !charged {
                    Err((String::from_str("EnergyCell not charged!"), r1.to_generic(), r2.to_generic()))
                } else if !self.contains(ComplexResourceType::Life) {
                    Err(
                        (
                            unknown_complex_recipe_message_text(ComplexResourceType::Life),
                            r1.to_generic(),
                            r2.to_generic(),
                        ),
                    )
                } else {
                    match life_fn(r1, r2, energy_cell) {
                        Ok(resource) => Ok(resource.to_complex()),
                        Err((e, r1, r2)) => Err((e, r1.to_generic(), r2.to_generic())),
                    }
                }
            },
            ComplexResourceRequest::Robot(r1, r2) => {
                if !charged {
                    Err((String::from_str("EnergyCell not charged!"), r1.to_generic(), r2.to_generic()))
                } else if !self.contains(ComplexResourceType::Robot) {
                    Err(
                        (
                            unknown_complex_recipe_message_text(ComplexResourceType::Robot),
                            r1.to_generic(),
                            r2.to_generic(),
                        ),
                    )
                } else {
                    match robot_fn(r1, r2, energy_cell) {
                        Ok(resource) => Ok(resource.to_complex()),
                        Err((e, r1, r2)) => Err((e, r1.to_generic(), r2.to_generic())),
                    }
                }
            },
            ComplexResourceRequest::Dolphin(r1, r2) => {
                if !charged {
                    Err((String::from_str("EnergyCell not charged!"), r1.to_generic(), r2.to_generic()))
                } else if !self.contains(ComplexResourceType::Dolphin) {
                    Err(
                        (
                            unknown_complex_recipe_message_text(ComplexResourceType::Dolphin),
                            r1.to_generic(),
                            r2.to_generic(),
                        ),
                    )
                } else {
                    match dolphin_fn(r1, r2, energy_cell) {
                        Ok(resource) => Ok(resource.to_complex()),
                        Err((e, r1, r2)) => Err((e, r1.to_generic(), r2.to_generic())),
                    }
                }
            },
            ComplexResourceRequest::AIPartner(r1, r2) => {
                if !charged {
                    Err((String::from_str("EnergyCell not charged!"), r1.to_generic(), r2.to_generic()))
                } else if !self.contains(ComplexResourceType::AIPartner) {
                    Err(
                        (
                            unknown_complex_recipe_message_text(ComplexResourceType::AIPartner),
                            r1.to_generic(),
                            r2.to_generic(),
                        ),
                    )
                } else {
                    match aipartner_fn(r1, r2, energy_cell) {
                        Ok(resource) => Ok(resource.to_complex()),
                        Err((e, r1, r2)) => Err((e, r1.to_generic(), r2.to_generic())),
                    }
                }
            },
        }
    }
}

} // verus!
