//! The kinds of command arguments.
//!
//! An argument is the text of a command line up to the next space. Every
//! kind accepts any text and keeps it as it was given.

use vstd::prelude::*;

verus! {

/// A command argument of the kind "bool argument".
#[derive(Debug)]
pub struct BoolArgument(pub String);

impl Clone for BoolArgument {
    fn clone(&self) -> (r: Self)
        ensures
            r == *self,
    {
        BoolArgument(self.0.clone())
    }
}

impl BoolArgument {
    /// Whether `text` can stand for an argument of this kind: any text can.
    pub fn satisfies(text: &str) -> (r: bool)
        ensures
            r,
    {
        true
    }

    /// The argument that `text` stands for.
    pub fn parse(text: &str) -> (r: Self)
        ensures
            r.0@ == text@,
    {
        BoolArgument(text.to_owned())
    }
}

/// A command argument of the kind "double argument".
#[derive(Debug)]
pub struct DoubleArgument(pub String);

impl Clone for DoubleArgument {
    fn clone(&self) -> (r: Self)
        ensures
            r == *self,
    {
        DoubleArgument(self.0.clone())
    }
}

impl DoubleArgument {
    /// Whether `text` can stand for an argument of this kind: any text can.
    pub fn satisfies(text: &str) -> (r: bool)
        ensures
            r,
    {
        true
    }

    /// The argument that `text` stands for.
    pub fn parse(text: &str) -> (r: Self)
        ensures
            r.0@ == text@,
    {
        DoubleArgument(text.to_owned())
    }
}

/// A command argument of the kind "float argument".
#[derive(Debug)]
pub struct FloatArgument(pub String);

impl Clone for FloatArgument {
    fn clone(&self) -> (r: Self)
        ensures
            r == *self,
    {
        FloatArgument(self.0.clone())
    }
}

impl FloatArgument {
    /// Whether `text` can stand for an argument of this kind: any text can.
    pub fn satisfies(text: &str) -> (r: bool)
        ensures
            r,
    {
        true
    }

    /// The argument that `text` stands for.
    pub fn parse(text: &str) -> (r: Self)
        ensures
            r.0@ == text@,
    {
        FloatArgument(text.to_owned())
    }
}

/// A command argument of the kind "float argument between0 and1".
#[derive(Debug)]
pub struct FloatArgumentBetween0And1(pub String);

impl Clone for FloatArgumentBetween0And1 {
    fn clone(&self) -> (r: Self)
        ensures
            r == *self,
    {
        FloatArgumentBetween0And1(self.0.clone())
    }
}

impl FloatArgumentBetween0And1 {
    /// Whether `text` can stand for an argument of this kind: any text can.
    pub fn satisfies(text: &str) -> (r: bool)
        ensures
            r,
    {
        true
    }

    /// The argument that `text` stands for.
    pub fn parse(text: &str) -> (r: Self)
        ensures
            r.0@ == text@,
    {
        FloatArgumentBetween0And1(text.to_owned())
    }
}

/// A command argument of the kind "float argument between0 and2".
#[derive(Debug)]
pub struct FloatArgumentBetween0And2(pub String);

impl Clone for FloatArgumentBetween0And2 {
    fn clone(&self) -> (r: Self)
        ensures
            r == *self,
    {
        FloatArgumentBetween0And2(self.0.clone())
    }
}

impl FloatArgumentBetween0And2 {
    /// Whether `text` can stand for an argument of this kind: any text can.
    pub fn satisfies(text: &str) -> (r: bool)
        ensures
            r,
    {
        true
    }

    /// The argument that `text` stands for.
    pub fn parse(text: &str) -> (r: Self)
        ensures
            r.0@ == text@,
    {
        FloatArgumentBetween0And2(text.to_owned())
    }
}

/// A command argument of the kind "float argument positive".
#[derive(Debug)]
pub struct FloatArgumentPositive(pub String);

impl Clone for FloatArgumentPositive {
    fn clone(&self) -> (r: Self)
        ensures
            r == *self,
    {
        FloatArgumentPositive(self.0.clone())
    }
}

impl FloatArgumentPositive {
    /// Whether `text` can stand for an argument of this kind: any text can.
    pub fn satisfies(text: &str) -> (r: bool)
        ensures
            r,
    {
        true
    }

    /// The argument that `text` stands for.
    pub fn parse(text: &str) -> (r: Self)
        ensures
            r.0@ == text@,
    {
        FloatArgumentPositive(text.to_owned())
    }
}

/// A command argument of the kind "float argument greater then1".
#[derive(Debug)]
pub struct FloatArgumentGreaterThen1(pub String);

impl Clone for FloatArgumentGreaterThen1 {
    fn clone(&self) -> (r: Self)
        ensures
            r == *self,
    {
        FloatArgumentGreaterThen1(self.0.clone())
    }
}

impl FloatArgumentGreaterThen1 {
    /// Whether `text` can stand for an argument of this kind: any text can.
    pub fn satisfies(text: &str) -> (r: bool)
        ensures
            r,
    {
        true
    }

    /// The argument that `text` stands for.
    pub fn parse(text: &str) -> (r: Self)
        ensures
            r.0@ == text@,
    {
        FloatArgumentGreaterThen1(text.to_owned())
    }
}

/// A command argument of the kind "integer argument".
#[derive(Debug)]
pub struct IntegerArgument(pub String);

impl Clone for IntegerArgument {
    fn clone(&self) -> (r: Self)
        ensures
            r == *self,
    {
        IntegerArgument(self.0.clone())
    }
}

impl IntegerArgument {
    /// Whether `text` can stand for an argument of this kind: any text can.
    pub fn satisfies(text: &str) -> (r: bool)
        ensures
            r,
    {
        true
    }

    /// The argument that `text` stands for.
    pub fn parse(text: &str) -> (r: Self)
        ensures
            r.0@ == text@,
    {
        IntegerArgument(text.to_owned())
    }
}

/// A command argument of the kind "integer argument between0 and1000000".
#[derive(Debug)]
pub struct IntegerArgumentBetween0And1000000(pub String);

impl Clone for IntegerArgumentBetween0And1000000 {
    fn clone(&self) -> (r: Self)
        ensures
            r == *self,
    {
        IntegerArgumentBetween0And1000000(self.0.clone())
    }
}

impl IntegerArgumentBetween0And1000000 {
    /// Whether `text` can stand for an argument of this kind: any text can.
    pub fn satisfies(text: &str) -> (r: bool)
        ensures
            r,
    {
        true
    }

    /// The argument that `text` stands for.
    pub fn parse(text: &str) -> (r: Self)
        ensures
            r.0@ == text@,
    {
        IntegerArgumentBetween0And1000000(text.to_owned())
    }
}

/// A command argument of the kind "integer argument between0 and255".
#[derive(Debug)]
pub struct IntegerArgumentBetween0And255(pub String);

impl Clone for IntegerArgumentBetween0And255 {
    fn clone(&self) -> (r: Self)
        ensures
            r == *self,
    {
        IntegerArgumentBetween0And255(self.0.clone())
    }
}

impl IntegerArgumentBetween0And255 {
    /// Whether `text` can stand for an argument of this kind: any text can.
    pub fn satisfies(text: &str) -> (r: bool)
        ensures
            r,
    {
        true
    }

    /// The argument that `text` stands for.
    pub fn parse(text: &str) -> (r: Self)
        ensures
            r.0@ == text@,
    {
        IntegerArgumentBetween0And255(text.to_owned())
    }
}

/// A command argument of the kind "integer argument between0 and65535".
#[derive(Debug)]
pub struct IntegerArgumentBetween0And65535(pub String);

impl Clone for IntegerArgumentBetween0And65535 {
    fn clone(&self) -> (r: Self)
        ensures
            r == *self,
    {
        IntegerArgumentBetween0And65535(self.0.clone())
    }
}

impl IntegerArgumentBetween0And65535 {
    /// Whether `text` can stand for an argument of this kind: any text can.
    pub fn satisfies(text: &str) -> (r: bool)
        ensures
            r,
    {
        true
    }

    /// The argument that `text` stands for.
    pub fn parse(text: &str) -> (r: Self)
        ensures
            r.0@ == text@,
    {
        IntegerArgumentBetween0And65535(text.to_owned())
    }
}

/// A command argument of the kind "integer argument positive".
#[derive(Debug)]
pub struct IntegerArgumentPositive(pub String);

impl Clone for IntegerArgumentPositive {
    fn clone(&self) -> (r: Self)
        ensures
            r == *self,
    {
        IntegerArgumentPositive(self.0.clone())
    }
}

impl IntegerArgumentPositive {
    /// Whether `text` can stand for an argument of this kind: any text can.
    pub fn satisfies(text: &str) -> (r: bool)
        ensures
            r,
    {
        true
    }

    /// The argument that `text` stands for.
    pub fn parse(text: &str) -> (r: Self)
        ensures
            r.0@ == text@,
    {
        IntegerArgumentPositive(text.to_owned())
    }
}

/// A command argument of the kind "integer argument between1 and1000000".
#[derive(Debug)]
pub struct IntegerArgumentBetween1And1000000(pub String);

impl Clone for IntegerArgumentBetween1And1000000 {
    fn clone(&self) -> (r: Self)
        ensures
            r == *self,
    {
        IntegerArgumentBetween1And1000000(self.0.clone())
    }
}

impl IntegerArgumentBetween1And1000000 {
    /// Whether `text` can stand for an argument of this kind: any text can.
    pub fn satisfies(text: &str) -> (r: bool)
        ensures
            r,
    {
        true
    }

    /// The argument that `text` stands for.
    pub fn parse(text: &str) -> (r: Self)
        ensures
            r.0@ == text@,
    {
        IntegerArgumentBetween1And1000000(text.to_owned())
    }
}

/// A command argument of the kind "integer argument between1 and64".
#[derive(Debug)]
pub struct IntegerArgumentBetween1And64(pub String);

impl Clone for IntegerArgumentBetween1And64 {
    fn clone(&self) -> (r: Self)
        ensures
            r == *self,
    {
        IntegerArgumentBetween1And64(self.0.clone())
    }
}

impl IntegerArgumentBetween1And64 {
    /// Whether `text` can stand for an argument of this kind: any text can.
    pub fn satisfies(text: &str) -> (r: bool)
        ensures
            r,
    {
        true
    }

    /// The argument that `text` stands for.
    pub fn parse(text: &str) -> (r: Self)
        ensures
            r.0@ == text@,
    {
        IntegerArgumentBetween1And64(text.to_owned())
    }
}

/// A command argument of the kind "integer argument greater then1".
#[derive(Debug)]
pub struct IntegerArgumentGreaterThen1(pub String);

impl Clone for IntegerArgumentGreaterThen1 {
    fn clone(&self) -> (r: Self)
        ensures
            r == *self,
    {
        IntegerArgumentGreaterThen1(self.0.clone())
    }
}

impl IntegerArgumentGreaterThen1 {
    /// Whether `text` can stand for an argument of this kind: any text can.
    pub fn satisfies(text: &str) -> (r: bool)
        ensures
            r,
    {
        true
    }

    /// The argument that `text` stands for.
    pub fn parse(text: &str) -> (r: Self)
        ensures
            r.0@ == text@,
    {
        IntegerArgumentGreaterThen1(text.to_owned())
    }
}

/// A command argument of the kind "string argument greedy".
#[derive(Debug)]
pub struct StringArgumentGreedy(pub String);

impl Clone for StringArgumentGreedy {
    fn clone(&self) -> (r: Self)
        ensures
            r == *self,
    {
        StringArgumentGreedy(self.0.clone())
    }
}

impl StringArgumentGreedy {
    /// Whether `text` can stand for an argument of this kind: any text can.
    pub fn satisfies(text: &str) -> (r: bool)
        ensures
            r,
    {
        true
    }

    /// The argument that `text` stands for.
    pub fn parse(text: &str) -> (r: Self)
        ensures
            r.0@ == text@,
    {
        StringArgumentGreedy(text.to_owned())
    }
}

/// A command argument of the kind "string argument phrase".
#[derive(Debug)]
pub struct StringArgumentPhrase(pub String);

impl Clone for StringArgumentPhrase {
    fn clone(&self) -> (r: Self)
        ensures
            r == *self,
    {
        StringArgumentPhrase(self.0.clone())
    }
}

impl StringArgumentPhrase {
    /// Whether `text` can stand for an argument of this kind: any text can.
    pub fn satisfies(text: &str) -> (r: bool)
        ensures
            r,
    {
        true
    }

    /// The argument that `text` stands for.
    pub fn parse(text: &str) -> (r: Self)
        ensures
            r.0@ == text@,
    {
        StringArgumentPhrase(text.to_owned())
    }
}

/// A command argument of the kind "string argument word".
#[derive(Debug)]
pub struct StringArgumentWord(pub String);

impl Clone for StringArgumentWord {
    fn clone(&self) -> (r: Self)
        ensures
            r == *self,
    {
        StringArgumentWord(self.0.clone())
    }
}

impl StringArgumentWord {
    /// Whether `text` can stand for an argument of this kind: any text can.
    pub fn satisfies(text: &str) -> (r: bool)
        ensures
            r,
    {
        true
    }

    /// The argument that `text` stands for.
    pub fn parse(text: &str) -> (r: Self)
        ensures
            r.0@ == text@,
    {
        StringArgumentWord(text.to_owned())
    }
}

/// A command argument of the kind "block pos".
#[derive(Debug)]
pub struct BlockPos(pub String);

impl Clone for BlockPos {
    fn clone(&self) -> (r: Self)
        ensures
            r == *self,
    {
        BlockPos(self.0.clone())
    }
}

impl BlockPos {
    /// Whether `text` can stand for an argument of this kind: any text can.
    pub fn satisfies(text: &str) -> (r: bool)
        ensures
            r,
    {
        true
    }

    /// The argument that `text` stands for.
    pub fn parse(text: &str) -> (r: Self)
        ensures
            r.0@ == text@,
    {
        BlockPos(text.to_owned())
    }
}

/// A command argument of the kind "block predicate".
#[derive(Debug)]
pub struct BlockPredicate(pub String);

impl Clone for BlockPredicate {
    fn clone(&self) -> (r: Self)
        ensures
            r == *self,
    {
        BlockPredicate(self.0.clone())
    }
}

impl BlockPredicate {
    /// Whether `text` can stand for an argument of this kind: any text can.
    pub fn satisfies(text: &str) -> (r: bool)
        ensures
            r,
    {
        true
    }

    /// The argument that `text` stands for.
    pub fn parse(text: &str) -> (r: Self)
        ensures
            r.0@ == text@,
    {
        BlockPredicate(text.to_owned())
    }
}

/// A command argument of the kind "block state".
#[derive(Debug)]
pub struct BlockState(pub String);

impl Clone for BlockState {
    fn clone(&self) -> (r: Self)
        ensures
            r == *self,
    {
        BlockState(self.0.clone())
    }
}

impl BlockState {
    /// Whether `text` can stand for an argument of this kind: any text can.
    pub fn satisfies(text: &str) -> (r: bool)
        ensures
            r,
    {
        true
    }

    /// The argument that `text` stands for.
    pub fn parse(text: &str) -> (r: Self)
        ensures
            r.0@ == text@,
    {
        BlockState(text.to_owned())
    }
}

/// A command argument of the kind "color".
#[derive(Debug)]
pub struct Color(pub String);

impl Clone for Color {
    fn clone(&self) -> (r: Self)
        ensures
            r == *self,
    {
        Color(self.0.clone())
    }
}

impl Color {
    /// Whether `text` can stand for an argument of this kind: any text can.
    pub fn satisfies(text: &str) -> (r: bool)
        ensures
            r,
    {
        true
    }

    /// The argument that `text` stands for.
    pub fn parse(text: &str) -> (r: Self)
        ensures
            r.0@ == text@,
    {
        Color(text.to_owned())
    }
}

/// A command argument of the kind "column pos".
#[derive(Debug)]
pub struct ColumnPos(pub String);

impl Clone for ColumnPos {
    fn clone(&self) -> (r: Self)
        ensures
            r == *self,
    {
        ColumnPos(self.0.clone())
    }
}

impl ColumnPos {
    /// Whether `text` can stand for an argument of this kind: any text can.
    pub fn satisfies(text: &str) -> (r: bool)
        ensures
            r,
    {
        true
    }

    /// The argument that `text` stands for.
    pub fn parse(text: &str) -> (r: Self)
        ensures
            r.0@ == text@,
    {
        ColumnPos(text.to_owned())
    }
}

/// A command argument of the kind "component".
#[derive(Debug)]
pub struct Component(pub String);

impl Clone for Component {
    fn clone(&self) -> (r: Self)
        ensures
            r == *self,
    {
        Component(self.0.clone())
    }
}

impl Component {
    /// Whether `text` can stand for an argument of this kind: any text can.
    pub fn satisfies(text: &str) -> (r: bool)
        ensures
            r,
    {
        true
    }

    /// The argument that `text` stands for.
    pub fn parse(text: &str) -> (r: Self)
        ensures
            r.0@ == text@,
    {
        Component(text.to_owned())
    }
}

/// A command argument of the kind "dimension".
#[derive(Debug)]
pub struct Dimension(pub String);

impl Clone for Dimension {
    fn clone(&self) -> (r: Self)
        ensures
            r == *self,
    {
        Dimension(self.0.clone())
    }
}

impl Dimension {
    /// Whether `text` can stand for an argument of this kind: any text can.
    pub fn satisfies(text: &str) -> (r: bool)
        ensures
            r,
    {
        true
    }

    /// The argument that `text` stands for.
    pub fn parse(text: &str) -> (r: Self)
        ensures
            r.0@ == text@,
    {
        Dimension(text.to_owned())
    }
}

/// A command argument of the kind "entity anchor".
#[derive(Debug)]
pub struct EntityAnchor(pub String);

impl Clone for EntityAnchor {
    fn clone(&self) -> (r: Self)
        ensures
            r == *self,
    {
        EntityAnchor(self.0.clone())
    }
}

impl EntityAnchor {
    /// Whether `text` can stand for an argument of this kind: any text can.
    pub fn satisfies(text: &str) -> (r: bool)
        ensures
            r,
    {
        true
    }

    /// The argument that `text` stands for.
    pub fn parse(text: &str) -> (r: Self)
        ensures
            r.0@ == text@,
    {
        EntityAnchor(text.to_owned())
    }
}

/// A command argument of the kind "entity summon".
#[derive(Debug)]
pub struct EntitySummon(pub String);

impl Clone for EntitySummon {
    fn clone(&self) -> (r: Self)
        ensures
            r == *self,
    {
        EntitySummon(self.0.clone())
    }
}

impl EntitySummon {
    /// Whether `text` can stand for an argument of this kind: any text can.
    pub fn satisfies(text: &str) -> (r: bool)
        ensures
            r,
    {
        true
    }

    /// The argument that `text` stands for.
    pub fn parse(text: &str) -> (r: Self)
        ensures
            r.0@ == text@,
    {
        EntitySummon(text.to_owned())
    }
}

/// A command argument of the kind "multiple entities".
#[derive(Debug)]
pub struct MultipleEntities(pub String);

impl Clone for MultipleEntities {
    fn clone(&self) -> (r: Self)
        ensures
            r == *self,
    {
        MultipleEntities(self.0.clone())
    }
}

impl MultipleEntities {
    /// Whether `text` can stand for an argument of this kind: any text can.
    pub fn satisfies(text: &str) -> (r: bool)
        ensures
            r,
    {
        true
    }

    /// The argument that `text` stands for.
    pub fn parse(text: &str) -> (r: Self)
        ensures
            r.0@ == text@,
    {
        MultipleEntities(text.to_owned())
    }
}

/// A command argument of the kind "multiple players".
#[derive(Debug)]
pub struct MultiplePlayers(pub String);

impl Clone for MultiplePlayers {
    fn clone(&self) -> (r: Self)
        ensures
            r == *self,
    {
        MultiplePlayers(self.0.clone())
    }
}

impl MultiplePlayers {
    /// Whether `text` can stand for an argument of this kind: any text can.
    pub fn satisfies(text: &str) -> (r: bool)
        ensures
            r,
    {
        true
    }

    /// The argument that `text` stands for.
    pub fn parse(text: &str) -> (r: Self)
        ensures
            r.0@ == text@,
    {
        MultiplePlayers(text.to_owned())
    }
}

/// A command argument of the kind "single entities".
#[derive(Debug)]
pub struct SingleEntities(pub String);

impl Clone for SingleEntities {
    fn clone(&self) -> (r: Self)
        ensures
            r == *self,
    {
        SingleEntities(self.0.clone())
    }
}

impl SingleEntities {
    /// Whether `text` can stand for an argument of this kind: any text can.
    pub fn satisfies(text: &str) -> (r: bool)
        ensures
            r,
    {
        true
    }

    /// The argument that `text` stands for.
    pub fn parse(text: &str) -> (r: Self)
        ensures
            r.0@ == text@,
    {
        SingleEntities(text.to_owned())
    }
}

/// A command argument of the kind "single player".
#[derive(Debug)]
pub struct SinglePlayer(pub String);

impl Clone for SinglePlayer {
    fn clone(&self) -> (r: Self)
        ensures
            r == *self,
    {
        SinglePlayer(self.0.clone())
    }
}

impl SinglePlayer {
    /// Whether `text` can stand for an argument of this kind: any text can.
    pub fn satisfies(text: &str) -> (r: bool)
        ensures
            r,
    {
        true
    }

    /// The argument that `text` stands for.
    pub fn parse(text: &str) -> (r: Self)
        ensures
            r.0@ == text@,
    {
        SinglePlayer(text.to_owned())
    }
}

/// A command argument of the kind "minecraft function".
#[derive(Debug)]
pub struct MinecraftFunction(pub String);

impl Clone for MinecraftFunction {
    fn clone(&self) -> (r: Self)
        ensures
            r == *self,
    {
        MinecraftFunction(self.0.clone())
    }
}

impl MinecraftFunction {
    /// Whether `text` can stand for an argument of this kind: any text can.
    pub fn satisfies(text: &str) -> (r: bool)
        ensures
            r,
    {
        true
    }

    /// The argument that `text` stands for.
    pub fn parse(text: &str) -> (r: Self)
        ensures
            r.0@ == text@,
    {
        MinecraftFunction(text.to_owned())
    }
}

/// A command argument of the kind "game profile".
#[derive(Debug)]
pub struct GameProfile(pub String);

impl Clone for GameProfile {
    fn clone(&self) -> (r: Self)
        ensures
            r == *self,
    {
        GameProfile(self.0.clone())
    }
}

impl GameProfile {
    /// Whether `text` can stand for an argument of this kind: any text can.
    pub fn satisfies(text: &str) -> (r: bool)
        ensures
            r,
    {
        true
    }

    /// The argument that `text` stands for.
    pub fn parse(text: &str) -> (r: Self)
        ensures
            r.0@ == text@,
    {
        GameProfile(text.to_owned())
    }
}

/// A command argument of the kind "int rage".
#[derive(Debug)]
pub struct IntRage(pub String);

impl Clone for IntRage {
    fn clone(&self) -> (r: Self)
        ensures
            r == *self,
    {
        IntRage(self.0.clone())
    }
}

impl IntRage {
    /// Whether `text` can stand for an argument of this kind: any text can.
    pub fn satisfies(text: &str) -> (r: bool)
        ensures
            r,
    {
        true
    }

    /// The argument that `text` stands for.
    pub fn parse(text: &str) -> (r: Self)
        ensures
            r.0@ == text@,
    {
        IntRage(text.to_owned())
    }
}

/// A command argument of the kind "enchantment".
#[derive(Debug)]
pub struct Enchantment(pub String);

impl Clone for Enchantment {
    fn clone(&self) -> (r: Self)
        ensures
            r == *self,
    {
        Enchantment(self.0.clone())
    }
}

impl Enchantment {
    /// Whether `text` can stand for an argument of this kind: any text can.
    pub fn satisfies(text: &str) -> (r: bool)
        ensures
            r,
    {
        true
    }

    /// The argument that `text` stands for.
    pub fn parse(text: &str) -> (r: Self)
        ensures
            r.0@ == text@,
    {
        Enchantment(text.to_owned())
    }
}

/// A command argument of the kind "predicate".
#[derive(Debug)]
pub struct Predicate(pub String);

impl Clone for Predicate {
    fn clone(&self) -> (r: Self)
        ensures
            r == *self,
    {
        Predicate(self.0.clone())
    }
}

impl Predicate {
    /// Whether `text` can stand for an argument of this kind: any text can.
    pub fn satisfies(text: &str) -> (r: bool)
        ensures
            r,
    {
        true
    }

    /// The argument that `text` stands for.
    pub fn parse(text: &str) -> (r: Self)
        ensures
            r.0@ == text@,
    {
        Predicate(text.to_owned())
    }
}

/// A command argument of the kind "item slot".
#[derive(Debug)]
pub struct ItemSlot(pub String);

impl Clone for ItemSlot {
    fn clone(&self) -> (r: Self)
        ensures
            r == *self,
    {
        ItemSlot(self.0.clone())
    }
}

impl ItemSlot {
    /// Whether `text` can stand for an argument of this kind: any text can.
    pub fn satisfies(text: &str) -> (r: bool)
        ensures
            r,
    {
        true
    }

    /// The argument that `text` stands for.
    pub fn parse(text: &str) -> (r: Self)
        ensures
            r.0@ == text@,
    {
        ItemSlot(text.to_owned())
    }
}

/// A command argument of the kind "item stack".
#[derive(Debug)]
pub struct ItemStack(pub String);

impl Clone for ItemStack {
    fn clone(&self) -> (r: Self)
        ensures
            r == *self,
    {
        ItemStack(self.0.clone())
    }
}

impl ItemStack {
    /// Whether `text` can stand for an argument of this kind: any text can.
    pub fn satisfies(text: &str) -> (r: bool)
        ensures
            r,
    {
        true
    }

    /// The argument that `text` stands for.
    pub fn parse(text: &str) -> (r: Self)
        ensures
            r.0@ == text@,
    {
        ItemStack(text.to_owned())
    }
}

/// A command argument of the kind "message".
#[derive(Debug)]
pub struct Message(pub String);

impl Clone for Message {
    fn clone(&self) -> (r: Self)
        ensures
            r == *self,
    {
        Message(self.0.clone())
    }
}

impl Message {
    /// Whether `text` can stand for an argument of this kind: any text can.
    pub fn satisfies(text: &str) -> (r: bool)
        ensures
            r,
    {
        true
    }

    /// The argument that `text` stands for.
    pub fn parse(text: &str) -> (r: Self)
        ensures
            r.0@ == text@,
    {
        Message(text.to_owned())
    }
}

/// A command argument of the kind "mob effect".
#[derive(Debug)]
pub struct MobEffect(pub String);

impl Clone for MobEffect {
    fn clone(&self) -> (r: Self)
        ensures
            r == *self,
    {
        MobEffect(self.0.clone())
    }
}

impl MobEffect {
    /// Whether `text` can stand for an argument of this kind: any text can.
    pub fn satisfies(text: &str) -> (r: bool)
        ensures
            r,
    {
        true
    }

    /// The argument that `text` stands for.
    pub fn parse(text: &str) -> (r: Self)
        ensures
            r.0@ == text@,
    {
        MobEffect(text.to_owned())
    }
}

/// A command argument of the kind "nbt command tag".
#[derive(Debug)]
pub struct NbtCommandTag(pub String);

impl Clone for NbtCommandTag {
    fn clone(&self) -> (r: Self)
        ensures
            r == *self,
    {
        NbtCommandTag(self.0.clone())
    }
}

impl NbtCommandTag {
    /// Whether `text` can stand for an argument of this kind: any text can.
    pub fn satisfies(text: &str) -> (r: bool)
        ensures
            r,
    {
        true
    }

    /// The argument that `text` stands for.
    pub fn parse(text: &str) -> (r: Self)
        ensures
            r.0@ == text@,
    {
        NbtCommandTag(text.to_owned())
    }
}

/// A command argument of the kind "nbt path".
#[derive(Debug)]
pub struct NbtPath(pub String);

impl Clone for NbtPath {
    fn clone(&self) -> (r: Self)
        ensures
            r == *self,
    {
        NbtPath(self.0.clone())
    }
}

impl NbtPath {
    /// Whether `text` can stand for an argument of this kind: any text can.
    pub fn satisfies(text: &str) -> (r: bool)
        ensures
            r,
    {
        true
    }

    /// The argument that `text` stands for.
    pub fn parse(text: &str) -> (r: Self)
        ensures
            r.0@ == text@,
    {
        NbtPath(text.to_owned())
    }
}

/// A command argument of the kind "nbt tag".
#[derive(Debug)]
pub struct NbtTag(pub String);

impl Clone for NbtTag {
    fn clone(&self) -> (r: Self)
        ensures
            r == *self,
    {
        NbtTag(self.0.clone())
    }
}

impl NbtTag {
    /// Whether `text` can stand for an argument of this kind: any text can.
    pub fn satisfies(text: &str) -> (r: bool)
        ensures
            r,
    {
        true
    }

    /// The argument that `text` stands for.
    pub fn parse(text: &str) -> (r: Self)
        ensures
            r.0@ == text@,
    {
        NbtTag(text.to_owned())
    }
}

/// A command argument of the kind "objective".
#[derive(Debug)]
pub struct Objective(pub String);

impl Clone for Objective {
    fn clone(&self) -> (r: Self)
        ensures
            r == *self,
    {
        Objective(self.0.clone())
    }
}

impl Objective {
    /// Whether `text` can stand for an argument of this kind: any text can.
    pub fn satisfies(text: &str) -> (r: bool)
        ensures
            r,
    {
        true
    }

    /// The argument that `text` stands for.
    pub fn parse(text: &str) -> (r: Self)
        ensures
            r.0@ == text@,
    {
        Objective(text.to_owned())
    }
}

/// A command argument of the kind "objective criteria".
#[derive(Debug)]
pub struct ObjectiveCriteria(pub String);

impl Clone for ObjectiveCriteria {
    fn clone(&self) -> (r: Self)
        ensures
            r == *self,
    {
        ObjectiveCriteria(self.0.clone())
    }
}

impl ObjectiveCriteria {
    /// Whether `text` can stand for an argument of this kind: any text can.
    pub fn satisfies(text: &str) -> (r: bool)
        ensures
            r,
    {
        true
    }

    /// The argument that `text` stands for.
    pub fn parse(text: &str) -> (r: Self)
        ensures
            r.0@ == text@,
    {
        ObjectiveCriteria(text.to_owned())
    }
}

/// A command argument of the kind "operation".
#[derive(Debug)]
pub struct Operation(pub String);

impl Clone for Operation {
    fn clone(&self) -> (r: Self)
        ensures
            r == *self,
    {
        Operation(self.0.clone())
    }
}

impl Operation {
    /// Whether `text` can stand for an argument of this kind: any text can.
    pub fn satisfies(text: &str) -> (r: bool)
        ensures
            r,
    {
        true
    }

    /// The argument that `text` stands for.
    pub fn parse(text: &str) -> (r: Self)
        ensures
            r.0@ == text@,
    {
        Operation(text.to_owned())
    }
}

/// A command argument of the kind "particle".
#[derive(Debug)]
pub struct Particle(pub String);

impl Clone for Particle {
    fn clone(&self) -> (r: Self)
        ensures
            r == *self,
    {
        Particle(self.0.clone())
    }
}

impl Particle {
    /// Whether `text` can stand for an argument of this kind: any text can.
    pub fn satisfies(text: &str) -> (r: bool)
        ensures
            r,
    {
        true
    }

    /// The argument that `text` stands for.
    pub fn parse(text: &str) -> (r: Self)
        ensures
            r.0@ == text@,
    {
        Particle(text.to_owned())
    }
}

/// A command argument of the kind "resource location".
#[derive(Debug)]
pub struct ResourceLocation(pub String);

impl Clone for ResourceLocation {
    fn clone(&self) -> (r: Self)
        ensures
            r == *self,
    {
        ResourceLocation(self.0.clone())
    }
}

impl ResourceLocation {
    /// Whether `text` can stand for an argument of this kind: any text can.
    pub fn satisfies(text: &str) -> (r: bool)
        ensures
            r,
    {
        true
    }

    /// The argument that `text` stands for.
    pub fn parse(text: &str) -> (r: Self)
        ensures
            r.0@ == text@,
    {
        ResourceLocation(text.to_owned())
    }
}

/// A command argument of the kind "rotation".
#[derive(Debug)]
pub struct Rotation(pub String);

impl Clone for Rotation {
    fn clone(&self) -> (r: Self)
        ensures
            r == *self,
    {
        Rotation(self.0.clone())
    }
}

impl Rotation {
    /// Whether `text` can stand for an argument of this kind: any text can.
    pub fn satisfies(text: &str) -> (r: bool)
        ensures
            r,
    {
        true
    }

    /// The argument that `text` stands for.
    pub fn parse(text: &str) -> (r: Self)
        ensures
            r.0@ == text@,
    {
        Rotation(text.to_owned())
    }
}

/// A command argument of the kind "multiple score holders".
#[derive(Debug)]
pub struct MultipleScoreHolders(pub String);

impl Clone for MultipleScoreHolders {
    fn clone(&self) -> (r: Self)
        ensures
            r == *self,
    {
        MultipleScoreHolders(self.0.clone())
    }
}

impl MultipleScoreHolders {
    /// Whether `text` can stand for an argument of this kind: any text can.
    pub fn satisfies(text: &str) -> (r: bool)
        ensures
            r,
    {
        true
    }

    /// The argument that `text` stands for.
    pub fn parse(text: &str) -> (r: Self)
        ensures
            r.0@ == text@,
    {
        MultipleScoreHolders(text.to_owned())
    }
}

/// A command argument of the kind "single score holder".
#[derive(Debug)]
pub struct SingleScoreHolder(pub String);

impl Clone for SingleScoreHolder {
    fn clone(&self) -> (r: Self)
        ensures
            r == *self,
    {
        SingleScoreHolder(self.0.clone())
    }
}

impl SingleScoreHolder {
    /// Whether `text` can stand for an argument of this kind: any text can.
    pub fn satisfies(text: &str) -> (r: bool)
        ensures
            r,
    {
        true
    }

    /// The argument that `text` stands for.
    pub fn parse(text: &str) -> (r: Self)
        ensures
            r.0@ == text@,
    {
        SingleScoreHolder(text.to_owned())
    }
}

/// A command argument of the kind "scoreboard slot".
#[derive(Debug)]
pub struct ScoreboardSlot(pub String);

impl Clone for ScoreboardSlot {
    fn clone(&self) -> (r: Self)
        ensures
            r == *self,
    {
        ScoreboardSlot(self.0.clone())
    }
}

impl ScoreboardSlot {
    /// Whether `text` can stand for an argument of this kind: any text can.
    pub fn satisfies(text: &str) -> (r: bool)
        ensures
            r,
    {
        true
    }

    /// The argument that `text` stands for.
    pub fn parse(text: &str) -> (r: Self)
        ensures
            r.0@ == text@,
    {
        ScoreboardSlot(text.to_owned())
    }
}

/// A command argument of the kind "swizzle".
#[derive(Debug)]
pub struct Swizzle(pub String);

impl Clone for Swizzle {
    fn clone(&self) -> (r: Self)
        ensures
            r == *self,
    {
        Swizzle(self.0.clone())
    }
}

impl Swizzle {
    /// Whether `text` can stand for an argument of this kind: any text can.
    pub fn satisfies(text: &str) -> (r: bool)
        ensures
            r,
    {
        true
    }

    /// The argument that `text` stands for.
    pub fn parse(text: &str) -> (r: Self)
        ensures
            r.0@ == text@,
    {
        Swizzle(text.to_owned())
    }
}

/// A command argument of the kind "team".
#[derive(Debug)]
pub struct Team(pub String);

impl Clone for Team {
    fn clone(&self) -> (r: Self)
        ensures
            r == *self,
    {
        Team(self.0.clone())
    }
}

impl Team {
    /// Whether `text` can stand for an argument of this kind: any text can.
    pub fn satisfies(text: &str) -> (r: bool)
        ensures
            r,
    {
        true
    }

    /// The argument that `text` stands for.
    pub fn parse(text: &str) -> (r: Self)
        ensures
            r.0@ == text@,
    {
        Team(text.to_owned())
    }
}

/// A command argument of the kind "time".
#[derive(Debug)]
pub struct Time(pub String);

impl Clone for Time {
    fn clone(&self) -> (r: Self)
        ensures
            r == *self,
    {
        Time(self.0.clone())
    }
}

impl Time {
    /// Whether `text` can stand for an argument of this kind: any text can.
    pub fn satisfies(text: &str) -> (r: bool)
        ensures
            r,
    {
        true
    }

    /// The argument that `text` stands for.
    pub fn parse(text: &str) -> (r: Self)
        ensures
            r.0@ == text@,
    {
        Time(text.to_owned())
    }
}

/// A command argument of the kind "uuid".
#[derive(Debug)]
pub struct Uuid(pub String);

impl Clone for Uuid {
    fn clone(&self) -> (r: Self)
        ensures
            r == *self,
    {
        Uuid(self.0.clone())
    }
}

impl Uuid {
    /// Whether `text` can stand for an argument of this kind: any text can.
    pub fn satisfies(text: &str) -> (r: bool)
        ensures
            r,
    {
        true
    }

    /// The argument that `text` stands for.
    pub fn parse(text: &str) -> (r: Self)
        ensures
            r.0@ == text@,
    {
        Uuid(text.to_owned())
    }
}

/// A command argument of the kind "vec2".
#[derive(Debug)]
pub struct Vec2(pub String);

impl Clone for Vec2 {
    fn clone(&self) -> (r: Self)
        ensures
            r == *self,
    {
        Vec2(self.0.clone())
    }
}

impl Vec2 {
    /// Whether `text` can stand for an argument of this kind: any text can.
    pub fn satisfies(text: &str) -> (r: bool)
        ensures
            r,
    {
        true
    }

    /// The argument that `text` stands for.
    pub fn parse(text: &str) -> (r: Self)
        ensures
            r.0@ == text@,
    {
        Vec2(text.to_owned())
    }
}

/// A command argument of the kind "vec3".
#[derive(Debug)]
pub struct Vec3(pub String);

impl Clone for Vec3 {
    fn clone(&self) -> (r: Self)
        ensures
            r == *self,
    {
        Vec3(self.0.clone())
    }
}

impl Vec3 {
    /// Whether `text` can stand for an argument of this kind: any text can.
    pub fn satisfies(text: &str) -> (r: bool)
        ensures
            r,
    {
        true
    }

    /// The argument that `text` stands for.
    pub fn parse(text: &str) -> (r: Self)
        ensures
            r.0@ == text@,
    {
        Vec3(text.to_owned())
    }
}

} // verus!
