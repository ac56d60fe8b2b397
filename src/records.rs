use vstd::prelude::*;
use vstd::string::*;

verus! {

/// A value that can be copied with its abstract contents kept.
pub trait Record: View + Sized {
    fn duplicate(&self) -> (r: Self)
        ensures
            r@ == self@,
    ;
}

/// The partial-merge capability: a partial record laid over an existing full
/// record gives a new full record.
pub trait Partial<T: View>: View + Sized {
    /// What the merge of `partial` onto `existing` is.
    spec fn merged(partial: Self::V, existing: T::V) -> T::V;

    fn merge(self, existing: &T) -> (r: T)
        ensures
            r@ == Self::merged(self@, existing@),
    ;
}

/// A field of a partial record laid over the existing value.
pub open spec fn pick(field: Option<Seq<char>>, existing: Seq<char>) -> Seq<char> {
    match field {
        Some(v) => v,
        None => existing,
    }
}

/// The view of an optional string field.
pub open spec fn opt_view(o: Option<String>) -> Option<Seq<char>> {
    match o {
        Some(s) => Some(s@),
        None => None,
    }
}

fn dup_opt(o: &Option<String>) -> (r: Option<String>)
    ensures
        opt_view(r) == opt_view(*o),
{
    match o {
        Some(s) => Some(s.clone()),
        None => None,
    }
}

fn take_or(field: Option<String>, existing: &String) -> (r: String)
    ensures
        r@ == pick(opt_view(field), existing@),
{
    match field {
        Some(v) => v,
        None => existing.clone(),
    }
}


/// An optional field as it is written out: its value, or `None`.
pub open spec fn or_none(o: Option<Seq<char>>) -> Seq<char> {
    match o {
        Some(v) => v,
        None => "None"@,
    }
}

fn opt_str<'a>(o: &'a Option<String>) -> (r: &'a str)
    ensures
        r@ == or_none(opt_view(*o)),
{
    match o {
        Some(v) => v.as_str(),
        None => "None",
    }
}

fn two_fields(n1: &str, v1: &str, n2: &str, v2: &str) -> (r: String)
    ensures
        r@ == n1@ + "="@ + v1@ + ", "@ + n2@ + "="@ + v2@,
{
    let mut out = String::from_str(n1);
    out.append("=");
    out.append(v1);
    out.append(", ");
    out.append(n2);
    out.append("=");
    out.append(v2);
    out
}

fn four_fields(v1: &str, v2: &str, v3: &str, v4: &str) -> (r: String)
    ensures
        r@ == "origin="@ + v1@ + ", "@ + "colour="@ + v2@ + ", "@ + "property="@ + v3@ + ", "@
            + "value="@ + v4@,
{
    let mut out = two_fields("origin", v1, "colour", v2);
    out.append(", ");
    let rest = two_fields("property", v3, "value", v4);
    out.append(rest.as_str());
    proof {
        reveal_strlit("origin");
        reveal_strlit("colour");
        reveal_strlit("property");
        reveal_strlit("value");
        reveal_strlit("origin=");
        reveal_strlit("colour=");
        reveal_strlit("property=");
        reveal_strlit("value=");
        reveal_strlit("=");
    }
    assert(out@ =~= "origin="@ + v1@ + ", "@ + "colour="@ + v2@ + ", "@ + "property="@ + v3@ + ", "@
        + "value="@ + v4@);
    out
}

// ---------------------------------------------------------------- Entity

pub struct EntityView {
    pub origin: Seq<char>,
    pub colour: Seq<char>,
}

#[derive(Debug, Clone, PartialEq, Eq)]
pub struct Entity {
    origin: String,
    colour: String,
}

impl View for Entity {
    type V = EntityView;

    closed spec fn view(&self) -> EntityView {
        EntityView { origin: self.origin@, colour: self.colour@ }
    }
}

impl Entity {
    pub fn new(origin: &str, colour: &str) -> (r: Self)
        ensures
            r@ == (EntityView { origin: origin@, colour: colour@ }),
    {
        Entity { origin: origin.to_owned(), colour: colour.to_owned() }
    }

    pub fn origin(&self) -> (r: &str)
        ensures
            r@ == self@.origin,
    {
        self.origin.as_str()
    }

    pub fn colour(&self) -> (r: &str)
        ensures
            r@ == self@.colour,
    {
        self.colour.as_str()
    }

    /// The entity as a line of text: `origin=<origin>, colour=<colour>`.
    pub fn describe(&self) -> (r: String)
        ensures
            r@ == "origin"@ + "="@ + self@.origin + ", "@ + "colour"@ + "="@ + self@.colour,
    {
        two_fields("origin", self.origin(), "colour", self.colour())
    }
}

impl Record for Entity {
    fn duplicate(&self) -> (r: Self) {
        Entity { origin: self.origin.clone(), colour: self.colour.clone() }
    }
}

pub struct PartialEntityView {
    pub origin: Option<Seq<char>>,
    pub colour: Option<Seq<char>>,
}

#[derive(Debug, Clone, PartialEq, Eq)]
pub struct PartialEntity {
    origin: Option<String>,
    colour: Option<String>,
}

impl View for PartialEntity {
    type V = PartialEntityView;

    closed spec fn view(&self) -> PartialEntityView {
        PartialEntityView { origin: opt_view(self.origin), colour: opt_view(self.colour) }
    }
}

impl PartialEntity {
    pub fn new(origin: Option<String>, colour: Option<String>) -> (r: Self)
        ensures
            r@ == (PartialEntityView { origin: opt_view(origin), colour: opt_view(colour) }),
    {
        PartialEntity { origin, colour }
    }

    pub fn origin(&self) -> (r: Option<String>)
        ensures
            opt_view(r) == self@.origin,
    {
        dup_opt(&self.origin)
    }

    pub fn colour(&self) -> (r: Option<String>)
        ensures
            opt_view(r) == self@.colour,
    {
        dup_opt(&self.colour)
    }

    /// The partial entity as a line of text, with `None` for a field left out.
    pub fn describe(&self) -> (r: String)
        ensures
            r@ == "origin"@ + "="@ + or_none(self@.origin) + ", "@ + "colour"@ + "="@ + or_none(
                self@.colour,
            ),
    {
        two_fields("origin", opt_str(&self.origin), "colour", opt_str(&self.colour))
    }
}

impl Record for PartialEntity {
    fn duplicate(&self) -> (r: Self) {
        PartialEntity { origin: dup_opt(&self.origin), colour: dup_opt(&self.colour) }
    }
}

impl Partial<Entity> for PartialEntity {
    open spec fn merged(partial: PartialEntityView, existing: EntityView) -> EntityView {
        EntityView {
            origin: pick(partial.origin, existing.origin),
            colour: pick(partial.colour, existing.colour),
        }
    }

    fn merge(self, existing: &Entity) -> (r: Entity) {
        Entity {
            origin: take_or(self.origin, &existing.origin),
            colour: take_or(self.colour, &existing.colour),
        }
    }
}

// -------------------------------------------------------------- Property

pub struct PropertyView {
    pub property: Seq<char>,
    pub value: Seq<char>,
}

#[derive(Debug, Clone, PartialEq, Eq)]
pub struct Property {
    property: String,
    value: String,
}

impl View for Property {
    type V = PropertyView;

    closed spec fn view(&self) -> PropertyView {
        PropertyView { property: self.property@, value: self.value@ }
    }
}

/// The property record that stands in for an absent one: both fields empty.
pub open spec fn empty_property() -> PropertyView {
    PropertyView { property: Seq::empty(), value: Seq::empty() }
}

impl Default for Property {
    fn default() -> (r: Self)
        ensures
            r@ == empty_property(),
    {
        Property { property: String::new(), value: String::new() }
    }
}

impl Property {
    pub fn new(property: &str, value: &str) -> (r: Self)
        ensures
            r@ == (PropertyView { property: property@, value: value@ }),
    {
        Property { property: property.to_owned(), value: value.to_owned() }
    }

    pub fn property(&self) -> (r: &str)
        ensures
            r@ == self@.property,
    {
        self.property.as_str()
    }

    pub fn value(&self) -> (r: &str)
        ensures
            r@ == self@.value,
    {
        self.value.as_str()
    }

    /// The property as a line of text: `property=<property>, value=<value>`.
    pub fn describe(&self) -> (r: String)
        ensures
            r@ == "property"@ + "="@ + self@.property + ", "@ + "value"@ + "="@ + self@.value,
    {
        two_fields("property", self.property(), "value", self.value())
    }
}

impl Record for Property {
    fn duplicate(&self) -> (r: Self) {
        Property { property: self.property.clone(), value: self.value.clone() }
    }
}

pub struct PartialPropertyView {
    pub property: Option<Seq<char>>,
    pub value: Option<Seq<char>>,
}

#[derive(Debug, Clone, PartialEq, Eq)]
pub struct PartialProperty {
    property: Option<String>,
    value: Option<String>,
}

impl View for PartialProperty {
    type V = PartialPropertyView;

    closed spec fn view(&self) -> PartialPropertyView {
        PartialPropertyView { property: opt_view(self.property), value: opt_view(self.value) }
    }
}

impl PartialProperty {
    pub fn new(property: Option<String>, value: Option<String>) -> (r: Self)
        ensures
            r@ == (PartialPropertyView { property: opt_view(property), value: opt_view(value) }),
    {
        PartialProperty { property, value }
    }

    pub fn property(&self) -> (r: Option<String>)
        ensures
            opt_view(r) == self@.property,
    {
        dup_opt(&self.property)
    }

    pub fn value(&self) -> (r: Option<String>)
        ensures
            opt_view(r) == self@.value,
    {
        dup_opt(&self.value)
    }

    /// The partial property as a line of text, with `None` for a field left out.
    pub fn describe(&self) -> (r: String)
        ensures
            r@ == "property"@ + "="@ + or_none(self@.property) + ", "@ + "value"@ + "="@ + or_none(
                self@.value,
            ),
    {
        two_fields("property", opt_str(&self.property), "value", opt_str(&self.value))
    }
}

impl Record for PartialProperty {
    fn duplicate(&self) -> (r: Self) {
        PartialProperty { property: dup_opt(&self.property), value: dup_opt(&self.value) }
    }
}

impl Partial<Property> for PartialProperty {
    open spec fn merged(partial: PartialPropertyView, existing: PropertyView) -> PropertyView {
        PropertyView {
            property: pick(partial.property, existing.property),
            value: pick(partial.value, existing.value),
        }
    }

    fn merge(self, existing: &Property) -> (r: Property) {
        Property {
            property: take_or(self.property, &existing.property),
            value: take_or(self.value, &existing.value),
        }
    }
}

// ----------------------------------------------------------------- Combo

/// The joined view of an entity and a property stored under one key.
pub struct ComboView {
    pub origin: Seq<char>,
    pub colour: Seq<char>,
    pub property: Seq<char>,
    pub value: Seq<char>,
}

/// The combined record of an entity and a property.
pub open spec fn join(e: EntityView, p: PropertyView) -> ComboView {
    ComboView { origin: e.origin, colour: e.colour, property: p.property, value: p.value }
}

/// The entity half of a combined record.
pub open spec fn entity_part(c: ComboView) -> EntityView {
    EntityView { origin: c.origin, colour: c.colour }
}

/// The property half of a combined record.
pub open spec fn property_part(c: ComboView) -> PropertyView {
    PropertyView { property: c.property, value: c.value }
}

#[derive(Debug, Clone, PartialEq, Eq)]
pub struct Combo {
    origin: String,
    colour: String,
    property: String,
    value: String,
}

impl View for Combo {
    type V = ComboView;

    closed spec fn view(&self) -> ComboView {
        ComboView {
            origin: self.origin@,
            colour: self.colour@,
            property: self.property@,
            value: self.value@,
        }
    }
}

impl Combo {
    pub fn new(origin: &str, colour: &str, property: &str, value: &str) -> (r: Self)
        ensures
            r@ == (ComboView {
                origin: origin@,
                colour: colour@,
                property: property@,
                value: value@,
            }),
    {
        Combo {
            origin: origin.to_owned(),
            colour: colour.to_owned(),
            property: property.to_owned(),
            value: value.to_owned(),
        }
    }

    pub fn origin(&self) -> (r: &str)
        ensures
            r@ == self@.origin,
    {
        self.origin.as_str()
    }

    pub fn colour(&self) -> (r: &str)
        ensures
            r@ == self@.colour,
    {
        self.colour.as_str()
    }

    pub fn property(&self) -> (r: &str)
        ensures
            r@ == self@.property,
    {
        self.property.as_str()
    }

    pub fn value(&self) -> (r: &str)
        ensures
            r@ == self@.value,
    {
        self.value.as_str()
    }

    /// Joins an entity and a property into one combined record.
    pub fn from_parts(entity: &Entity, property: &Property) -> (r: Self)
        ensures
            r@ == join(entity@, property@),
    {
        Combo::new(entity.origin(), entity.colour(), property.property(), property.value())
    }

    /// The entity half: origin and colour.
    pub fn to_entity(&self) -> (r: Entity)
        ensures
            r@ == entity_part(self@),
    {
        Entity::new(self.origin(), self.colour())
    }

    /// The property half: property and value.
    pub fn to_property(&self) -> (r: Property)
        ensures
            r@ == property_part(self@),
    {
        Property::new(self.property(), self.value())
    }

    /// The record as a line of text:
    /// `origin=<origin>, colour=<colour>, property=<property>, value=<value>`.
    pub fn describe(&self) -> (r: String)
        ensures
            r@ == "origin="@ + self@.origin + ", "@ + "colour="@ + self@.colour + ", "@ + "property="@
                + self@.property + ", "@ + "value="@ + self@.value,
    {
        four_fields(self.origin(), self.colour(), self.property(), self.value())
    }
}

impl Record for Combo {
    fn duplicate(&self) -> (r: Self) {
        Combo {
            origin: self.origin.clone(),
            colour: self.colour.clone(),
            property: self.property.clone(),
            value: self.value.clone(),
        }
    }
}

pub struct MaybeComboView {
    pub origin: Seq<char>,
    pub colour: Seq<char>,
    pub property: Option<Seq<char>>,
    pub value: Option<Seq<char>>,
}

/// The body of a create request: origin and colour are required, property
/// and value may be left out.
#[derive(Debug, Clone, PartialEq, Eq)]
pub struct MaybeCombo {
    origin: String,
    colour: String,
    property: Option<String>,
    value: Option<String>,
}

impl View for MaybeCombo {
    type V = MaybeComboView;

    closed spec fn view(&self) -> MaybeComboView {
        MaybeComboView {
            origin: self.origin@,
            colour: self.colour@,
            property: opt_view(self.property),
            value: opt_view(self.value),
        }
    }
}

/// The property half of a create request, where both of its fields are given.
pub open spec fn given_property(m: MaybeComboView) -> Option<PropertyView> {
    match (m.property, m.value) {
        (Some(p), Some(v)) => Some(PropertyView { property: p, value: v }),
        _ => None,
    }
}

impl MaybeCombo {
    pub fn new(origin: String, colour: String, property: Option<String>, value: Option<String>) -> (r: Self)
        ensures
            r@ == (MaybeComboView {
                origin: origin@,
                colour: colour@,
                property: opt_view(property),
                value: opt_view(value),
            }),
    {
        MaybeCombo { origin, colour, property, value }
    }

    /// A create request that carries only an entity.
    pub fn from_entity(entity: &Entity) -> (r: Self)
        ensures
            r@ == (MaybeComboView {
                origin: entity@.origin,
                colour: entity@.colour,
                property: None,
                value: None,
            }),
    {
        MaybeCombo {
            origin: entity.origin().to_owned(),
            colour: entity.colour().to_owned(),
            property: None,
            value: None,
        }
    }

    pub fn origin(&self) -> (r: &str)
        ensures
            r@ == self@.origin,
    {
        self.origin.as_str()
    }

    pub fn colour(&self) -> (r: &str)
        ensures
            r@ == self@.colour,
    {
        self.colour.as_str()
    }

    pub fn property(&self) -> (r: Option<String>)
        ensures
            opt_view(r) == self@.property,
    {
        dup_opt(&self.property)
    }

    pub fn value(&self) -> (r: Option<String>)
        ensures
            opt_view(r) == self@.value,
    {
        dup_opt(&self.value)
    }

    /// The entity half: origin and colour.
    pub fn to_entity(&self) -> (r: Entity)
        ensures
            r@ == (EntityView { origin: self@.origin, colour: self@.colour }),
    {
        Entity::new(self.origin(), self.colour())
    }

    /// The property half, where both property and value are given; otherwise
    /// an error naming the first missing field.
    pub fn try_into_property(self) -> (r: Result<Property, String>)
        ensures
            match r {
                Ok(p) => given_property(self@) == Some(p@),
                Err(e) => given_property(self@).is_none() && e@ == (if self@.property.is_none() {
                    "property is None"@
                } else {
                    "value is None"@
                }),
            },
    {
        match (self.property, self.value) {
            (Some(p), Some(v)) => Ok(Property { property: p, value: v }),
            (None, _) => Err("property is None".to_owned()),
            (Some(_), None) => Err("value is None".to_owned()),
        }
    }

    /// The property half, or the empty property where property or value is
    /// left out.
    pub fn property_or_default(&self) -> (r: Property)
        ensures
            r@ == match given_property(self@) {
                Some(p) => p,
                None => empty_property(),
            },
    {
        match self.duplicate().try_into_property() {
            Ok(p) => p,
            Err(_) => Property::default(),
        }
    }

    /// The request body as a line of text, with `None` for a field left out.
    pub fn describe(&self) -> (r: String)
        ensures
            r@ == "origin="@ + self@.origin + ", "@ + "colour="@ + self@.colour + ", "@ + "property="@
                + or_none(self@.property) + ", "@ + "value="@ + or_none(self@.value),
    {
        four_fields(self.origin(), self.colour(), opt_str(&self.property), opt_str(&self.value))
    }
}

impl Record for MaybeCombo {
    fn duplicate(&self) -> (r: Self) {
        MaybeCombo {
            origin: self.origin.clone(),
            colour: self.colour.clone(),
            property: dup_opt(&self.property),
            value: dup_opt(&self.value),
        }
    }
}

impl Partial<Combo> for MaybeCombo {
    open spec fn merged(partial: MaybeComboView, existing: ComboView) -> ComboView {
        ComboView {
            origin: partial.origin,
            colour: partial.colour,
            property: pick(partial.property, existing.property),
            value: pick(partial.value, existing.value),
        }
    }

    fn merge(self, existing: &Combo) -> (r: Combo) {
        Combo {
            origin: self.origin,
            colour: self.colour,
            property: take_or(self.property, &existing.property),
            value: take_or(self.value, &existing.value),
        }
    }
}

pub struct PartialComboView {
    pub origin: Option<Seq<char>>,
    pub colour: Option<Seq<char>>,
    pub property: Option<Seq<char>>,
    pub value: Option<Seq<char>>,
}

/// The body of an update request: every field may be left out.
#[derive(Debug, Clone, PartialEq, Eq)]
pub struct PartialCombo {
    origin: Option<String>,
    colour: Option<String>,
    property: Option<String>,
    value: Option<String>,
}

impl View for PartialCombo {
    type V = PartialComboView;

    closed spec fn view(&self) -> PartialComboView {
        PartialComboView {
            origin: opt_view(self.origin),
            colour: opt_view(self.colour),
            property: opt_view(self.property),
            value: opt_view(self.value),
        }
    }
}

impl PartialCombo {
    pub fn new(
        origin: Option<String>,
        colour: Option<String>,
        property: Option<String>,
        value: Option<String>,
    ) -> (r: Self)
        ensures
            r@ == (PartialComboView {
                origin: opt_view(origin),
                colour: opt_view(colour),
                property: opt_view(property),
                value: opt_view(value),
            }),
    {
        PartialCombo { origin, colour, property, value }
    }

    pub fn origin(&self) -> (r: Option<String>)
        ensures
            opt_view(r) == self@.origin,
    {
        dup_opt(&self.origin)
    }

    pub fn colour(&self) -> (r: Option<String>)
        ensures
            opt_view(r) == self@.colour,
    {
        dup_opt(&self.colour)
    }

    pub fn property(&self) -> (r: Option<String>)
        ensures
            opt_view(r) == self@.property,
    {
        dup_opt(&self.property)
    }

    pub fn value(&self) -> (r: Option<String>)
        ensures
            opt_view(r) == self@.value,
    {
        dup_opt(&self.value)
    }

    /// The request body as a line of text, with `None` for a field left out.
    pub fn describe(&self) -> (r: String)
        ensures
            r@ == "origin="@ + or_none(self@.origin) + ", "@ + "colour="@ + or_none(self@.colour)
                + ", "@ + "property="@ + or_none(self@.property) + ", "@ + "value="@ + or_none(
                self@.value,
            ),
    {
        four_fields(
            opt_str(&self.origin),
            opt_str(&self.colour),
            opt_str(&self.property),
            opt_str(&self.value),
        )
    }
}

impl Record for PartialCombo {
    fn duplicate(&self) -> (r: Self) {
        PartialCombo {
            origin: dup_opt(&self.origin),
            colour: dup_opt(&self.colour),
            property: dup_opt(&self.property),
            value: dup_opt(&self.value),
        }
    }
}

impl Partial<Combo> for PartialCombo {
    open spec fn merged(partial: PartialComboView, existing: ComboView) -> ComboView {
        ComboView {
            origin: pick(partial.origin, existing.origin),
            colour: pick(partial.colour, existing.colour),
            property: pick(partial.property, existing.property),
            value: pick(partial.value, existing.value),
        }
    }

    fn merge(self, existing: &Combo) -> (r: Combo) {
        Combo {
            origin: take_or(self.origin, &existing.origin),
            colour: take_or(self.colour, &existing.colour),
            property: take_or(self.property, &existing.property),
            value: take_or(self.value, &existing.value),
        }
    }
}

} // verus!
