//! The components that an entity can carry.
//!
//! A component is a plain value of one of a few kinds. An entity carries at
//! most one component of each kind.

use vstd::prelude::*;

verus! {

/// The kinds of components.
#[derive(Clone, Copy, Debug, PartialEq, Eq, Structural, Hash)]
pub enum ComponentKind {
    Str,
    I32,
    Bool,
    U128,
    Usize,
    Bytes,
}

/// A component: a value of one of the kinds.
#[derive(Clone, Copy, Debug)]
pub enum ComponentValue {
    Str(&'static str),
    I32(i32),
    Bool(bool),
    U128(u128),
    Usize(usize),
    Bytes([u8; 1024]),
}

impl ComponentValue {
    /// The kind of this component.
    pub open spec fn spec_kind(self) -> ComponentKind {
        match self {
            ComponentValue::Str(_) => ComponentKind::Str,
            ComponentValue::I32(_) => ComponentKind::I32,
            ComponentValue::Bool(_) => ComponentKind::Bool,
            ComponentValue::U128(_) => ComponentKind::U128,
            ComponentValue::Usize(_) => ComponentKind::Usize,
            ComponentValue::Bytes(_) => ComponentKind::Bytes,
        }
    }

    /// The kind of this component.
    pub fn kind(&self) -> (r: ComponentKind)
        ensures
            r == self.spec_kind(),
    {
        match self {
            ComponentValue::Str(_) => ComponentKind::Str,
            ComponentValue::I32(_) => ComponentKind::I32,
            ComponentValue::Bool(_) => ComponentKind::Bool,
            ComponentValue::U128(_) => ComponentKind::U128,
            ComponentValue::Usize(_) => ComponentKind::Usize,
            ComponentValue::Bytes(_) => ComponentKind::Bytes,
        }
    }
}

/// A type whose values are components of one kind.
pub trait Component: Sized {
    /// The kind of the components of this type.
    spec fn spec_kind() -> ComponentKind;

    /// The component that holds `self`.
    spec fn spec_wrap(self) -> ComponentValue;

    /// The value that `value` holds, where it is of this type's kind.
    spec fn spec_peek(value: ComponentValue) -> Option<Self>;

    /// A component holds a value of this type exactly where it is of this
    /// type's kind, and wrapping a value gives the component that holds it.
    proof fn lemma_kind(value: ComponentValue, inner: Self)
        ensures
            Self::spec_peek(value) is Some <==> value.spec_kind() == Self::spec_kind(),
            Self::spec_peek(value) matches Some(held) ==> held.spec_wrap() == value,
            inner.spec_wrap().spec_kind() == Self::spec_kind(),
            Self::spec_peek(inner.spec_wrap()) == Some(inner),
    ;

    /// The kind of the components of this type.
    fn component_kind() -> (r: ComponentKind)
        ensures
            r == Self::spec_kind(),
    ;

    /// Makes a component of `self`.
    fn wrap(self) -> (r: ComponentValue)
        ensures
            r == self.spec_wrap(),
    ;

    /// The value that `value` holds, where it is of this type's kind.
    fn peek(value: &ComponentValue) -> (r: Option<&Self>)
        ensures
            match r {
                Some(held) => Self::spec_peek(*value) == Some(*held),
                None => Self::spec_peek(*value) is None,
            },
    ;

    /// The value that `value` held, where it is of this type's kind.
    fn unwrap(value: ComponentValue) -> (r: Option<Self>)
        ensures
            r == Self::spec_peek(value),
    ;

    /// A mutable reference to the value that `value` holds, where it is of
    /// this type's kind. What the caller leaves there is what the
    /// component then holds.
    fn peek_mut(value: &mut ComponentValue) -> (r: Option<&mut Self>)
        ensures
            match r {
                Some(held) => Self::spec_peek(*old(value)) == Some(*held) && *final(value) == (
                *final(held)).spec_wrap(),
                None => Self::spec_peek(*old(value)) is None && *final(value) == *old(value),
            },
    ;
}

impl Component for &'static str {
    open spec fn spec_kind() -> ComponentKind {
        ComponentKind::Str
    }

    open spec fn spec_wrap(self) -> ComponentValue {
        ComponentValue::Str(self)
    }

    open spec fn spec_peek(value: ComponentValue) -> Option<&'static str> {
        match value {
            ComponentValue::Str(held) => Some(held),
            _ => None,
        }
    }

    proof fn lemma_kind(value: ComponentValue, inner: &'static str) {
    }

    fn component_kind() -> (r: ComponentKind) {
        ComponentKind::Str
    }

    fn wrap(self) -> (r: ComponentValue) {
        ComponentValue::Str(self)
    }

    fn peek(value: &ComponentValue) -> (r: Option<&&'static str>) {
        match value {
            ComponentValue::Str(held) => Some(held),
            _ => None,
        }
    }

    fn unwrap(value: ComponentValue) -> (r: Option<&'static str>) {
        match value {
            ComponentValue::Str(held) => Some(held),
            _ => None,
        }
    }

    fn peek_mut(value: &mut ComponentValue) -> (r: Option<&mut &'static str>) {
        match value {
            ComponentValue::Str(held) => Some(held),
            _ => None,
        }
    }
}

impl Component for i32 {
    open spec fn spec_kind() -> ComponentKind {
        ComponentKind::I32
    }

    open spec fn spec_wrap(self) -> ComponentValue {
        ComponentValue::I32(self)
    }

    open spec fn spec_peek(value: ComponentValue) -> Option<i32> {
        match value {
            ComponentValue::I32(held) => Some(held),
            _ => None,
        }
    }

    proof fn lemma_kind(value: ComponentValue, inner: i32) {
    }

    fn component_kind() -> (r: ComponentKind) {
        ComponentKind::I32
    }

    fn wrap(self) -> (r: ComponentValue) {
        ComponentValue::I32(self)
    }

    fn peek(value: &ComponentValue) -> (r: Option<&i32>) {
        match value {
            ComponentValue::I32(held) => Some(held),
            _ => None,
        }
    }

    fn unwrap(value: ComponentValue) -> (r: Option<i32>) {
        match value {
            ComponentValue::I32(held) => Some(held),
            _ => None,
        }
    }

    fn peek_mut(value: &mut ComponentValue) -> (r: Option<&mut i32>) {
        match value {
            ComponentValue::I32(held) => Some(held),
            _ => None,
        }
    }
}

impl Component for bool {
    open spec fn spec_kind() -> ComponentKind {
        ComponentKind::Bool
    }

    open spec fn spec_wrap(self) -> ComponentValue {
        ComponentValue::Bool(self)
    }

    open spec fn spec_peek(value: ComponentValue) -> Option<bool> {
        match value {
            ComponentValue::Bool(held) => Some(held),
            _ => None,
        }
    }

    proof fn lemma_kind(value: ComponentValue, inner: bool) {
    }

    fn component_kind() -> (r: ComponentKind) {
        ComponentKind::Bool
    }

    fn wrap(self) -> (r: ComponentValue) {
        ComponentValue::Bool(self)
    }

    fn peek(value: &ComponentValue) -> (r: Option<&bool>) {
        match value {
            ComponentValue::Bool(held) => Some(held),
            _ => None,
        }
    }

    fn unwrap(value: ComponentValue) -> (r: Option<bool>) {
        match value {
            ComponentValue::Bool(held) => Some(held),
            _ => None,
        }
    }

    fn peek_mut(value: &mut ComponentValue) -> (r: Option<&mut bool>) {
        match value {
            ComponentValue::Bool(held) => Some(held),
            _ => None,
        }
    }
}

impl Component for u128 {
    open spec fn spec_kind() -> ComponentKind {
        ComponentKind::U128
    }

    open spec fn spec_wrap(self) -> ComponentValue {
        ComponentValue::U128(self)
    }

    open spec fn spec_peek(value: ComponentValue) -> Option<u128> {
        match value {
            ComponentValue::U128(held) => Some(held),
            _ => None,
        }
    }

    proof fn lemma_kind(value: ComponentValue, inner: u128) {
    }

    fn component_kind() -> (r: ComponentKind) {
        ComponentKind::U128
    }

    fn wrap(self) -> (r: ComponentValue) {
        ComponentValue::U128(self)
    }

    fn peek(value: &ComponentValue) -> (r: Option<&u128>) {
        match value {
            ComponentValue::U128(held) => Some(held),
            _ => None,
        }
    }

    fn unwrap(value: ComponentValue) -> (r: Option<u128>) {
        match value {
            ComponentValue::U128(held) => Some(held),
            _ => None,
        }
    }

    fn peek_mut(value: &mut ComponentValue) -> (r: Option<&mut u128>) {
        match value {
            ComponentValue::U128(held) => Some(held),
            _ => None,
        }
    }
}

impl Component for usize {
    open spec fn spec_kind() -> ComponentKind {
        ComponentKind::Usize
    }

    open spec fn spec_wrap(self) -> ComponentValue {
        ComponentValue::Usize(self)
    }

    open spec fn spec_peek(value: ComponentValue) -> Option<usize> {
        match value {
            ComponentValue::Usize(held) => Some(held),
            _ => None,
        }
    }

    proof fn lemma_kind(value: ComponentValue, inner: usize) {
    }

    fn component_kind() -> (r: ComponentKind) {
        ComponentKind::Usize
    }

    fn wrap(self) -> (r: ComponentValue) {
        ComponentValue::Usize(self)
    }

    fn peek(value: &ComponentValue) -> (r: Option<&usize>) {
        match value {
            ComponentValue::Usize(held) => Some(held),
            _ => None,
        }
    }

    fn unwrap(value: ComponentValue) -> (r: Option<usize>) {
        match value {
            ComponentValue::Usize(held) => Some(held),
            _ => None,
        }
    }

    fn peek_mut(value: &mut ComponentValue) -> (r: Option<&mut usize>) {
        match value {
            ComponentValue::Usize(held) => Some(held),
            _ => None,
        }
    }
}

impl Component for [u8; 1024] {
    open spec fn spec_kind() -> ComponentKind {
        ComponentKind::Bytes
    }

    open spec fn spec_wrap(self) -> ComponentValue {
        ComponentValue::Bytes(self)
    }

    open spec fn spec_peek(value: ComponentValue) -> Option<[u8; 1024]> {
        match value {
            ComponentValue::Bytes(held) => Some(held),
            _ => None,
        }
    }

    proof fn lemma_kind(value: ComponentValue, inner: [u8; 1024]) {
    }

    fn component_kind() -> (r: ComponentKind) {
        ComponentKind::Bytes
    }

    fn wrap(self) -> (r: ComponentValue) {
        ComponentValue::Bytes(self)
    }

    fn peek(value: &ComponentValue) -> (r: Option<&[u8; 1024]>) {
        match value {
            ComponentValue::Bytes(held) => Some(held),
            _ => None,
        }
    }

    fn unwrap(value: ComponentValue) -> (r: Option<[u8; 1024]>) {
        match value {
            ComponentValue::Bytes(held) => Some(held),
            _ => None,
        }
    }

    fn peek_mut(value: &mut ComponentValue) -> (r: Option<&mut [u8; 1024]>) {
        match value {
            ComponentValue::Bytes(held) => Some(held),
            _ => None,
        }
    }
}

/// The index of the first component of `kind` among `components`.
pub open spec fn slot_of(components: Seq<ComponentValue>, kind: ComponentKind, from: int) -> Option<
    int,
>
    decreases components.len() - from,
{
    if from < 0 || from >= components.len() {
        None
    } else if components[from].spec_kind() == kind {
        Some(from)
    } else {
        slot_of(components, kind, from + 1)
    }
}

/// The component of `kind` among `components`.
pub open spec fn lookup(components: Seq<ComponentValue>, kind: ComponentKind) -> Option<
    ComponentValue,
> {
    match slot_of(components, kind, 0) {
        Some(slot) => Some(components[slot]),
        None => None,
    }
}

/// The components after `value` was added: it takes the place of the
/// component of its kind, or comes last where there is none.
pub open spec fn with_component(components: Seq<ComponentValue>, value: ComponentValue) -> Seq<
    ComponentValue,
> {
    match slot_of(components, value.spec_kind(), 0) {
        Some(slot) => components.update(slot, value),
        None => components.push(value),
    }
}

/// The components after the one of `kind` was removed.
pub open spec fn without_component(components: Seq<ComponentValue>, kind: ComponentKind) -> Seq<
    ComponentValue,
> {
    match slot_of(components, kind, 0) {
        Some(slot) => components.remove(slot),
        None => components,
    }
}

/// What `slot_of` finds is a slot of the list that holds a component of
/// the kind, and no slot before it does.
pub proof fn lemma_slot_of(components: Seq<ComponentValue>, kind: ComponentKind, from: int)
    requires
        0 <= from,
    ensures
        match slot_of(components, kind, from) {
            Some(slot) => from <= slot < components.len() && components[slot].spec_kind() == kind,
            None => forall|i: int|
                from <= i < components.len() ==> (#[trigger] components[i]).spec_kind() != kind,
        },
    decreases components.len() - from,
{
    if from < components.len() && components[from].spec_kind() != kind {
        lemma_slot_of(components, kind, from + 1);
    }
}

/// Finds the slot of the component of `kind`.
pub fn find_slot(components: &Vec<ComponentValue>, kind: ComponentKind) -> (r: Option<usize>)
    ensures
        match r {
            Some(slot) => slot_of(components@, kind, 0) == Some(slot as int) && slot < components@.len(),
            None => slot_of(components@, kind, 0) is None,
        },
{
    let mut i: usize = 0;
    while i < components.len()
        invariant
            i <= components@.len(),
            slot_of(components@, kind, 0) == slot_of(components@, kind, i as int),
        decreases components@.len() - i,
    {
        if components[i].kind() == kind {
            return Some(i);
        }
        i = i + 1;
    }
    None
}

/// Adds `value` to `components`, in place of the component of its kind
/// where there is one.
pub fn put_component(components: &mut Vec<ComponentValue>, value: ComponentValue)
    ensures
        final(components)@ == with_component(old(components)@, value),
{
    match find_slot(components, value.kind()) {
        Some(slot) => {
            components.set(slot, value);
        },
        None => {
            components.push(value);
        },
    }
}

/// A group of components that an entity is given at once.
pub trait Bundle: Sized {
    /// The components of the group, in their order.
    spec fn spec_values(self) -> Seq<ComponentValue>;

    /// The components of the group, in their order.
    fn into_values(self) -> (r: Vec<ComponentValue>)
        ensures
            r@ == self.spec_values(),
    ;
}

impl<A: Component> Bundle for (A,) {
    open spec fn spec_values(self) -> Seq<ComponentValue> {
        seq![self.0.spec_wrap()]
    }

    fn into_values(self) -> (r: Vec<ComponentValue>) {
        let mut values: Vec<ComponentValue> = Vec::new();
        values.push(self.0.wrap());
        proof {
            assert(values@ =~= seq![self.0.spec_wrap()]);
        }
        values
    }
}

impl<A: Component, B: Component> Bundle for (A, B) {
    open spec fn spec_values(self) -> Seq<ComponentValue> {
        seq![self.0.spec_wrap(), self.1.spec_wrap()]
    }

    fn into_values(self) -> (r: Vec<ComponentValue>) {
        let mut values: Vec<ComponentValue> = Vec::new();
        values.push(self.0.wrap());
        values.push(self.1.wrap());
        proof {
            assert(values@ =~= seq![self.0.spec_wrap(), self.1.spec_wrap()]);
        }
        values
    }
}

impl<A: Component, B: Component, C: Component> Bundle for (A, B, C) {
    open spec fn spec_values(self) -> Seq<ComponentValue> {
        seq![self.0.spec_wrap(), self.1.spec_wrap(), self.2.spec_wrap()]
    }

    fn into_values(self) -> (r: Vec<ComponentValue>) {
        let mut values: Vec<ComponentValue> = Vec::new();
        values.push(self.0.wrap());
        values.push(self.1.wrap());
        values.push(self.2.wrap());
        proof {
            assert(values@ =~= seq![self.0.spec_wrap(), self.1.spec_wrap(), self.2.spec_wrap()]);
        }
        values
    }
}

/// The components after each of `values` was added in turn.
pub open spec fn with_components(components: Seq<ComponentValue>, values: Seq<ComponentValue>, upto: int) -> Seq<
    ComponentValue,
>
    decreases upto,
{
    if upto <= 0 {
        components
    } else {
        with_component(with_components(components, values, upto - 1), values[upto - 1])
    }
}

/// Adds each of `values` in turn to an empty list: of two components of
/// one kind the later one stays.
pub fn gather(values: Vec<ComponentValue>) -> (r: Vec<ComponentValue>)
    ensures
        r@ == with_components(Seq::empty(), values@, values@.len() as int),
{
    let mut out: Vec<ComponentValue> = Vec::new();
    let mut i: usize = 0;
    while i < values.len()
        invariant
            i <= values@.len(),
            out@ == with_components(Seq::empty(), values@, i as int),
        decreases values@.len() - i,
    {
        put_component(&mut out, values[i]);
        i = i + 1;
    }
    out
}

} // verus!
