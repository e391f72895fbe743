use vstd::prelude::*;

verus! {

/// The types a declaration can name.
#[derive(Debug, PartialEq)]
pub enum Types {
    Void,
    Int,
    Float,
    Double,
    Bool,
    Char,
    String,
    Array(Vec<Types>),
    Tuple(Vec<Types>),
    Vector(Vec<Types>),
    Struct,
    Function(Vec<NamedType>),
    Custom(String),
    Unknown,
}

/// One entry of a function type: a name and the type that goes with it.
#[derive(Debug, PartialEq)]
pub struct NamedType {
    pub name: String,
    pub ty: Types,
}

pub ghost struct NamedTypeView {
    pub name: Seq<char>,
    pub ty: TypesView,
}

/// What a `Types` value stands for: element types as a sequence, a function's
/// named types as a sequence of entries, a custom type's name as its characters.
pub ghost enum TypesView {
    Void,
    Int,
    Float,
    Double,
    Bool,
    Char,
    String,
    Array(Seq<TypesView>),
    Tuple(Seq<TypesView>),
    Vector(Seq<TypesView>),
    Struct,
    Function(Seq<NamedTypeView>),
    Custom(Seq<char>),
    Unknown,
}

impl TypesView {
    /// Whether every function type in the type names each of its entries
    /// once: a name stands for one type.
    pub open spec fn names_distinct(self) -> bool
        decreases self,
    {
        match self {
            TypesView::Array(items) | TypesView::Tuple(items) | TypesView::Vector(items) => {
                forall|i: int| 0 <= i < items.len() ==> (#[trigger] items[i]).names_distinct()
            },
            TypesView::Function(named) => {
                &&& forall|i: int, j: int|
                    0 <= i < j < named.len() ==> (#[trigger] named[i]).name != (
                    #[trigger] named[j]).name
                &&& forall|i: int|
                    0 <= i < named.len() ==> (#[trigger] named[i]).ty.names_distinct()
            },
            _ => true,
        }
    }
}

/// The views of a list of types, in order.
pub open spec fn types_model(items: Vec<Types>) -> Seq<TypesView>
    decreases items,
{
    Seq::new(
        items@.len(),
        |i: int|
            if 0 <= i < items@.len() {
                items@[i].model()
            } else {
                TypesView::Unknown
            },
    )
}

/// The views of a list of named types, in order.
pub open spec fn named_types_model(items: Vec<NamedType>) -> Seq<NamedTypeView>
    decreases items,
{
    Seq::new(
        items@.len(),
        |i: int|
            if 0 <= i < items@.len() {
                NamedTypeView { name: items@[i].name@, ty: items@[i].ty.model() }
            } else {
                NamedTypeView { name: Seq::empty(), ty: TypesView::Unknown }
            },
    )
}

impl Types {
    pub open spec fn model(&self) -> TypesView
        decreases self,
    {
        match self {
            Types::Void => TypesView::Void,
            Types::Int => TypesView::Int,
            Types::Float => TypesView::Float,
            Types::Double => TypesView::Double,
            Types::Bool => TypesView::Bool,
            Types::Char => TypesView::Char,
            Types::String => TypesView::String,
            Types::Array(items) => TypesView::Array(types_model(*items)),
            Types::Tuple(items) => TypesView::Tuple(types_model(*items)),
            Types::Vector(items) => TypesView::Vector(types_model(*items)),
            Types::Struct => TypesView::Struct,
            Types::Function(named) => TypesView::Function(named_types_model(*named)),
            Types::Custom(name) => TypesView::Custom(name@),
            Types::Unknown => TypesView::Unknown,
        }
    }
}

impl View for NamedType {
    type V = NamedTypeView;

    open spec fn view(&self) -> NamedTypeView {
        NamedTypeView { name: self.name@, ty: self.ty.model() }
    }
}

impl View for Types {
    type V = TypesView;

    open spec fn view(&self) -> TypesView {
        self.model()
    }
}

/// Copies a list of types.
fn clone_types(items: &Vec<Types>) -> (copy: Vec<Types>)
    ensures
        types_model(copy) == types_model(*items),
    decreases items,
{
    let mut copy: Vec<Types> = Vec::new();
    let mut i: usize = 0;
    while i < items.len()
        invariant
            i <= items.len(),
            copy@.len() == i,
            forall|k: int| 0 <= k < i ==> copy@[k].model() == items@[k].model(),
        decreases items.len() - i,
    {
        let item = items[i].clone();
        copy.push(item);
        i = i + 1;
    }
    assert(types_model(copy) =~= types_model(*items));
    copy
}

/// Copies a list of named types.
fn clone_named_types(items: &Vec<NamedType>) -> (copy: Vec<NamedType>)
    ensures
        named_types_model(copy) == named_types_model(*items),
    decreases items,
{
    let mut copy: Vec<NamedType> = Vec::new();
    let mut i: usize = 0;
    while i < items.len()
        invariant
            i <= items.len(),
            copy@.len() == i,
            forall|k: int|
                0 <= k < i ==> copy@[k].name@ == items@[k].name@ && copy@[k].ty.model()
                    == items@[k].ty.model(),
        decreases items.len() - i,
    {
        let item = NamedType { name: items[i].name.clone(), ty: items[i].ty.clone() };
        copy.push(item);
        i = i + 1;
    }
    assert(named_types_model(copy) =~= named_types_model(*items));
    copy
}

impl Clone for Types {
    /// A copy that stands for the same type.
    fn clone(&self) -> (copy: Self)
        ensures
            copy@ == self@,
        decreases self,
    {
        proof {
            reveal_with_fuel(Types::model, 2);
        }
        match self {
            Types::Void => Types::Void,
            Types::Int => Types::Int,
            Types::Float => Types::Float,
            Types::Double => Types::Double,
            Types::Bool => Types::Bool,
            Types::Char => Types::Char,
            Types::String => Types::String,
            Types::Array(items) => Types::Array(clone_types(items)),
            Types::Tuple(items) => Types::Tuple(clone_types(items)),
            Types::Vector(items) => Types::Vector(clone_types(items)),
            Types::Struct => Types::Struct,
            Types::Function(named) => Types::Function(clone_named_types(named)),
            Types::Custom(name) => Types::Custom(name.clone()),
            Types::Unknown => Types::Unknown,
        }
    }
}

impl Clone for NamedType {
    /// A copy with the same name and a type that stands for the same type.
    fn clone(&self) -> (copy: Self)
        ensures
            copy@ == self@,
    {
        NamedType { name: self.name.clone(), ty: self.ty.clone() }
    }
}

} // verus!
