//! The shape of a tool's parameters: an object with named, typed properties.

use vstd::prelude::*;

verus! {

/// The primitive types of a schema.
#[derive(Clone, Copy, Debug, PartialEq, Eq, Structural)]
pub enum InstanceType {
    Null,
    Boolean,
    Object,
    Array,
    Number,
    Text,
    Integer,
}

/// The type of a property: one type, or a union of the types listed.
#[derive(Debug)]
pub enum SingleOrVec {
    Single(InstanceType),
    Vec(Vec<InstanceType>),
}

/// The type of a property as the contracts see it.
pub ghost enum TypeView {
    Single(InstanceType),
    Union(Seq<InstanceType>),
}

impl TypeView {
    /// The type narrowed to a single one: a union becomes the first type it
    /// lists. A single type stays, and so does a union that lists nothing,
    /// which has no first type to become.
    pub open spec fn narrowed(self) -> TypeView {
        match self {
            TypeView::Union(types) if types.len() > 0 => TypeView::Single(types[0]),
            other => other,
        }
    }
}

impl View for SingleOrVec {
    type V = TypeView;

    open spec fn view(&self) -> TypeView {
        match self {
            SingleOrVec::Single(t) => TypeView::Single(*t),
            SingleOrVec::Vec(types) => TypeView::Union(types@),
        }
    }
}

impl Clone for SingleOrVec {
    fn clone(&self) -> (copy: Self)
        ensures
            copy@ == self@,
    {
        match self {
            SingleOrVec::Single(t) => SingleOrVec::Single(*t),
            SingleOrVec::Vec(types) => {
                let mut copy: Vec<InstanceType> = Vec::new();
                let mut i: usize = 0;
                while i < types.len()
                    invariant
                        i <= types.len(),
                        copy@ == types@.take(i as int),
                    decreases types.len() - i,
                {
                    copy.push(types[i]);
                    assert(types@.take(i + 1) =~= types@.take(i as int).push(types@[i as int]));
                    i += 1;
                }
                assert(types@.take(i as int) =~= types@);
                SingleOrVec::Vec(copy)
            },
        }
    }
}

impl SingleOrVec {
    /// Narrows the type to a single one, for providers that reject unions.
    pub fn narrow(self) -> (single: SingleOrVec)
        ensures
            single@ == self@.narrowed(),
    {
        match self {
            SingleOrVec::Vec(types) => {
                if types.len() > 0 {
                    SingleOrVec::Single(types[0])
                } else {
                    SingleOrVec::Vec(types)
                }
            },
            single => single,
        }
    }
}

/// The optional type of a property as the contracts see it.
pub open spec fn type_view(instance_type: Option<SingleOrVec>) -> Option<TypeView> {
    match instance_type {
        Some(t) => Some(t@),
        None => None,
    }
}

/// One named property of an object schema.
#[derive(Debug)]
pub struct Property {
    pub name: String,
    /// The type of the property, where the schema states one.
    pub instance_type: Option<SingleOrVec>,
    /// Whatever else the schema says of the property, as JSON text. It is
    /// carried along and never looked into.
    pub annotations: String,
}

/// A property as the contracts see it.
pub ghost struct PropertyView {
    pub name: Seq<char>,
    pub instance_type: Option<TypeView>,
    pub annotations: Seq<char>,
}

impl PropertyView {
    /// The property with its type narrowed to a single one; the rest is kept.
    pub open spec fn narrowed(self) -> PropertyView {
        PropertyView {
            instance_type: match self.instance_type {
                Some(t) => Some(t.narrowed()),
                None => None,
            },
            ..self
        }
    }
}

impl View for Property {
    type V = PropertyView;

    open spec fn view(&self) -> PropertyView {
        PropertyView {
            name: self.name@,
            instance_type: type_view(self.instance_type),
            annotations: self.annotations@,
        }
    }
}

impl Clone for Property {
    fn clone(&self) -> (copy: Self)
        ensures
            copy@ == self@,
    {
        Property {
            name: self.name.clone(),
            instance_type: match &self.instance_type {
                Some(t) => Some(t.clone()),
                None => None,
            },
            annotations: self.annotations.clone(),
        }
    }
}

impl Property {
    /// Narrows the type of the property to a single one.
    ///
    /// This loses the other types of a union. A property with one type, or
    /// with none stated, comes back as it was.
    pub fn narrow(self) -> (single: Property)
        ensures
            single@ == self@.narrowed(),
    {
        Property {
            name: self.name,
            instance_type: match self.instance_type {
                Some(t) => Some(t.narrow()),
                None => None,
            },
            annotations: self.annotations,
        }
    }
}

/// The views of a list of properties.
pub open spec fn property_views(properties: Seq<Property>) -> Seq<PropertyView> {
    properties.map_values(|p: Property| p@)
}

/// The views of a list of strings.
pub open spec fn text_views(texts: Seq<String>) -> Seq<Seq<char>> {
    texts.map_values(|t: String| t@)
}

/// An object schema: its properties and the names of those that are required.
#[derive(Debug)]
pub struct ObjectSchema {
    pub properties: Vec<Property>,
    pub required: Vec<String>,
}

/// An object schema as the contracts see it.
pub ghost struct SchemaView {
    pub properties: Seq<PropertyView>,
    pub required: Seq<Seq<char>>,
}

impl View for ObjectSchema {
    type V = SchemaView;

    open spec fn view(&self) -> SchemaView {
        SchemaView {
            properties: property_views(self.properties@),
            required: text_views(self.required@),
        }
    }
}

/// Copies a list of strings.
pub fn clone_texts(texts: &Vec<String>) -> (copy: Vec<String>)
    ensures
        text_views(copy@) == text_views(texts@),
{
    let mut copy: Vec<String> = Vec::new();
    let mut i: usize = 0;
    while i < texts.len()
        invariant
            i <= texts.len(),
            text_views(copy@) == text_views(texts@.take(i as int)),
        decreases texts.len() - i,
    {
        let ghost before = copy@;
        copy.push(texts[i].clone());
        proof {
            assert(texts@.take(i + 1) =~= texts@.take(i as int).push(texts@[i as int]));
            assert(text_views(copy@) =~= text_views(before).push(texts@[i as int]@));
            assert(text_views(texts@.take(i + 1)) =~= text_views(texts@.take(i as int)).push(
                texts@[i as int]@,
            ));
        }
        i += 1;
    }
    proof {
        assert(texts@.take(i as int) =~= texts@);
    }
    copy
}

/// Copies a list of properties.
pub fn clone_properties(properties: &Vec<Property>) -> (copy: Vec<Property>)
    ensures
        property_views(copy@) == property_views(properties@),
{
    let mut copy: Vec<Property> = Vec::new();
    let mut i: usize = 0;
    while i < properties.len()
        invariant
            i <= properties.len(),
            property_views(copy@) == property_views(properties@.take(i as int)),
        decreases properties.len() - i,
    {
        let ghost before = copy@;
        copy.push(properties[i].clone());
        proof {
            assert(properties@.take(i + 1) =~= properties@.take(i as int).push(
                properties@[i as int],
            ));
            assert(property_views(copy@) =~= property_views(before).push(properties@[i as int]@));
            assert(property_views(properties@.take(i + 1)) =~= property_views(
                properties@.take(i as int),
            ).push(properties@[i as int]@));
        }
        i += 1;
    }
    proof {
        assert(properties@.take(i as int) =~= properties@);
    }
    copy
}

impl Clone for ObjectSchema {
    fn clone(&self) -> (copy: Self)
        ensures
            copy@ == self@,
    {
        ObjectSchema {
            properties: clone_properties(&self.properties),
            required: clone_texts(&self.required),
        }
    }
}

impl ObjectSchema {
    /// A schema of an object without properties.
    pub fn empty() -> (schema: ObjectSchema)
        ensures
            schema@ == (SchemaView { properties: Seq::empty(), required: Seq::empty() }),
    {
        let schema = ObjectSchema { properties: Vec::new(), required: Vec::new() };
        proof {
            assert(property_views(schema.properties@) =~= Seq::empty());
            assert(text_views(schema.required@) =~= Seq::empty());
        }
        schema
    }
}

} // verus!
