//! References to the entities of a function.
//!
//! Instructions refer to other parts of their function: to extended basic
//! blocks, values and stack slots, and to what the preamble declares. Such a
//! reference is not a pointer but a 32-bit index into one of the function's
//! tables, wrapped in a type of its own for each kind of entity, so that a
//! block cannot be taken for a value.
//!
//! Every kind keeps the largest 32-bit number back as its reserved value, so
//! that a [`PackedOption`](crate::packed_option::PackedOption) of a reference
//! is as small as the reference.
//!
//! The text of a reference is the one that the textual form of the
//! representation uses: a short prefix and the index in decimal.

use crate::decimal::{
    decimal, is_digit, lemma_decimal_digits, lemma_decimal_injective, prefixed,
};
use crate::entity_ref::EntityRef;
use crate::packed_option::ReservedValue;
use vstd::prelude::*;
use vstd::std_specs::convert::{FromSpec, FromSpecImpl};
use vstd::string::*;

verus! {

/// A reference to an extended basic block of a function.
#[derive(Copy, Clone, PartialEq, Eq, Hash, Debug, PartialOrd, Ord, Structural)]
pub struct Ebb(u32);

impl View for Ebb {
    type V = nat;

    closed spec fn view(&self) -> nat {
        self.0 as nat
    }
}

impl EntityRef for Ebb {
    open spec fn spec_index(self) -> nat {
        self@
    }

    fn new(index: usize) -> (r: Ebb) {
        Ebb(index as u32)
    }

    fn index(self) -> (i: usize) {
        self.0 as usize
    }

    proof fn lemma_index_determines(self, other: Ebb) {
    }
}

impl ReservedValue for Ebb {
    closed spec fn spec_reserved_value() -> Ebb {
        Ebb(u32::MAX)
    }

    fn reserved_value() -> (r: Ebb)
        ensures
            r@ == u32::MAX,
    {
        Ebb(u32::MAX)
    }

    fn is_reserved_value(&self) -> (b: bool)
        ensures
            b == (self@ == u32::MAX),
    {
        self.0 == u32::MAX
    }
}

impl Ebb {
    /// The prefix of the name of a block.
    pub open spec fn prefix() -> Seq<char> {
        seq!['e', 'b', 'b']
    }

    /// The name of the block: `ebb12` for the one with index 12.
    pub open spec fn text(self) -> Seq<char> {
        Self::prefix() + decimal(self@)
    }

    /// The number that a reference holds fits in 32 bits, and the reserved
    /// value holds the largest of them.
    pub proof fn lemma_view(self)
        ensures
            self@ <= u32::MAX,
            Self::spec_reserved_value()@ == u32::MAX,
    {
    }

    /// The block that the text `ebbNN` names, where `n` is the number `NN`.
    ///
    /// This is for the parser: a number that no block can have gives `None`
    /// and no failure. The only such number is the reserved one.
    pub fn with_number(n: u32) -> (r: Option<Ebb>)
        ensures
            r is Some <==> n < u32::MAX,
            r matches Some(ebb) ==> ebb@ == n,
    {
        if n < u32::MAX {
            Some(Ebb(n))
        } else {
            None
        }
    }

    /// The name of the block.
    pub fn to_string(&self) -> (s: String)
        ensures
            s@ == self.text(),
    {
        proof {
            reveal_strlit("ebb");
            assert("ebb"@ =~= Self::prefix());
        }
        prefixed("ebb", self.0)
    }
}

/// A reference to an SSA value.
///
/// Only the lower half of the 32-bit numbers is used for the values that the
/// text of a function can name; see [`Value::with_number`].
#[derive(Copy, Clone, PartialEq, Eq, Hash, Debug, Structural)]
pub struct Value(u32);

impl View for Value {
    type V = nat;

    closed spec fn view(&self) -> nat {
        self.0 as nat
    }
}

impl EntityRef for Value {
    open spec fn spec_index(self) -> nat {
        self@
    }

    fn new(index: usize) -> (r: Value) {
        Value(index as u32)
    }

    fn index(self) -> (i: usize) {
        self.0 as usize
    }

    proof fn lemma_index_determines(self, other: Value) {
    }
}

impl ReservedValue for Value {
    closed spec fn spec_reserved_value() -> Value {
        Value(u32::MAX)
    }

    fn reserved_value() -> (r: Value)
        ensures
            r@ == u32::MAX,
    {
        Value(u32::MAX)
    }

    fn is_reserved_value(&self) -> (b: bool)
        ensures
            b == (self@ == u32::MAX),
    {
        self.0 == u32::MAX
    }
}

impl Value {
    /// The prefix of the name of a value.
    pub open spec fn prefix() -> Seq<char> {
        seq!['v']
    }

    /// The name of the value: `v3` for the one with index 3.
    pub open spec fn text(self) -> Seq<char> {
        Self::prefix() + decimal(self@)
    }

    /// The number that a reference holds fits in 32 bits, and the reserved
    /// value holds the largest of them.
    pub proof fn lemma_view(self)
        ensures
            self@ <= u32::MAX,
            Self::spec_reserved_value()@ == u32::MAX,
    {
    }

    /// The first number that the text of a function cannot give to a value:
    /// half of the 32-bit range.
    pub open spec fn number_limit() -> nat {
        0x7fff_ffff
    }

    /// The value that the text `vNN` names, where `n` is the number `NN`.
    ///
    /// This is for the parser: a number that no such value can have gives
    /// `None` and no failure. Values are numbered in the lower half of the
    /// 32-bit range only.
    pub fn with_number(n: u32) -> (r: Option<Value>)
        ensures
            r is Some <==> n < Self::number_limit(),
            r matches Some(value) ==> value@ == n,
    {
        if n < u32::MAX / 2 {
            Some(Value(n))
        } else {
            None
        }
    }

    /// The name of the value.
    pub fn to_string(&self) -> (s: String)
        ensures
            s@ == self.text(),
    {
        proof {
            reveal_strlit("v");
            assert("v"@ =~= Self::prefix());
        }
        prefixed("v", self.0)
    }
}

/// A reference to an instruction of a function.
#[derive(Copy, Clone, PartialEq, Eq, Hash, Debug, PartialOrd, Ord, Structural)]
pub struct Inst(u32);

impl View for Inst {
    type V = nat;

    closed spec fn view(&self) -> nat {
        self.0 as nat
    }
}

impl EntityRef for Inst {
    open spec fn spec_index(self) -> nat {
        self@
    }

    fn new(index: usize) -> (r: Inst) {
        Inst(index as u32)
    }

    fn index(self) -> (i: usize) {
        self.0 as usize
    }

    proof fn lemma_index_determines(self, other: Inst) {
    }
}

impl ReservedValue for Inst {
    closed spec fn spec_reserved_value() -> Inst {
        Inst(u32::MAX)
    }

    fn reserved_value() -> (r: Inst)
        ensures
            r@ == u32::MAX,
    {
        Inst(u32::MAX)
    }

    fn is_reserved_value(&self) -> (b: bool)
        ensures
            b == (self@ == u32::MAX),
    {
        self.0 == u32::MAX
    }
}

impl Inst {
    /// The prefix of the name of an instruction.
    pub open spec fn prefix() -> Seq<char> {
        seq!['i', 'n', 's', 't']
    }

    /// The name of the instruction: `inst7` for the one with index 7.
    pub open spec fn text(self) -> Seq<char> {
        Self::prefix() + decimal(self@)
    }

    /// The number that a reference holds fits in 32 bits, and the reserved
    /// value holds the largest of them.
    pub proof fn lemma_view(self)
        ensures
            self@ <= u32::MAX,
            Self::spec_reserved_value()@ == u32::MAX,
    {
    }

    /// The name of the instruction.
    pub fn to_string(&self) -> (s: String)
        ensures
            s@ == self.text(),
    {
        proof {
            reveal_strlit("inst");
            assert("inst"@ =~= Self::prefix());
        }
        prefixed("inst", self.0)
    }
}

/// A reference to a stack slot.
#[derive(Copy, Clone, PartialEq, Eq, Hash, Debug, Structural)]
pub struct StackSlot(u32);

impl View for StackSlot {
    type V = nat;

    closed spec fn view(&self) -> nat {
        self.0 as nat
    }
}

impl EntityRef for StackSlot {
    open spec fn spec_index(self) -> nat {
        self@
    }

    fn new(index: usize) -> (r: StackSlot) {
        StackSlot(index as u32)
    }

    fn index(self) -> (i: usize) {
        self.0 as usize
    }

    proof fn lemma_index_determines(self, other: StackSlot) {
    }
}

impl ReservedValue for StackSlot {
    closed spec fn spec_reserved_value() -> StackSlot {
        StackSlot(u32::MAX)
    }

    fn reserved_value() -> (r: StackSlot)
        ensures
            r@ == u32::MAX,
    {
        StackSlot(u32::MAX)
    }

    fn is_reserved_value(&self) -> (b: bool)
        ensures
            b == (self@ == u32::MAX),
    {
        self.0 == u32::MAX
    }
}

impl StackSlot {
    /// The prefix of the name of a stack slot.
    pub open spec fn prefix() -> Seq<char> {
        seq!['s', 's']
    }

    /// The name of the stack slot: `ss0` for the one with index 0.
    pub open spec fn text(self) -> Seq<char> {
        Self::prefix() + decimal(self@)
    }

    /// The number that a reference holds fits in 32 bits, and the reserved
    /// value holds the largest of them.
    pub proof fn lemma_view(self)
        ensures
            self@ <= u32::MAX,
            Self::spec_reserved_value()@ == u32::MAX,
    {
    }

    /// The name of the stack slot.
    pub fn to_string(&self) -> (s: String)
        ensures
            s@ == self.text(),
    {
        proof {
            reveal_strlit("ss");
            assert("ss"@ =~= Self::prefix());
        }
        prefixed("ss", self.0)
    }
}

/// A reference to a jump table.
#[derive(Copy, Clone, PartialEq, Eq, Hash, Debug, Structural)]
pub struct JumpTable(u32);

impl View for JumpTable {
    type V = nat;

    closed spec fn view(&self) -> nat {
        self.0 as nat
    }
}

impl EntityRef for JumpTable {
    open spec fn spec_index(self) -> nat {
        self@
    }

    fn new(index: usize) -> (r: JumpTable) {
        JumpTable(index as u32)
    }

    fn index(self) -> (i: usize) {
        self.0 as usize
    }

    proof fn lemma_index_determines(self, other: JumpTable) {
    }
}

impl ReservedValue for JumpTable {
    closed spec fn spec_reserved_value() -> JumpTable {
        JumpTable(u32::MAX)
    }

    fn reserved_value() -> (r: JumpTable)
        ensures
            r@ == u32::MAX,
    {
        JumpTable(u32::MAX)
    }

    fn is_reserved_value(&self) -> (b: bool)
        ensures
            b == (self@ == u32::MAX),
    {
        self.0 == u32::MAX
    }
}

impl JumpTable {
    /// The prefix of the name of a jump table.
    pub open spec fn prefix() -> Seq<char> {
        seq!['j', 't']
    }

    /// The name of the jump table: `jt1` for the one with index 1.
    pub open spec fn text(self) -> Seq<char> {
        Self::prefix() + decimal(self@)
    }

    /// The number that a reference holds fits in 32 bits, and the reserved
    /// value holds the largest of them.
    pub proof fn lemma_view(self)
        ensures
            self@ <= u32::MAX,
            Self::spec_reserved_value()@ == u32::MAX,
    {
    }

    /// The name of the jump table.
    pub fn to_string(&self) -> (s: String)
        ensures
            s@ == self.text(),
    {
        proof {
            reveal_strlit("jt");
            assert("jt"@ =~= Self::prefix());
        }
        prefixed("jt", self.0)
    }
}

/// A reference to an external function that the preamble declares.
#[derive(Copy, Clone, PartialEq, Eq, Hash, Debug, Structural)]
pub struct FuncRef(u32);

impl View for FuncRef {
    type V = nat;

    closed spec fn view(&self) -> nat {
        self.0 as nat
    }
}

impl EntityRef for FuncRef {
    open spec fn spec_index(self) -> nat {
        self@
    }

    fn new(index: usize) -> (r: FuncRef) {
        FuncRef(index as u32)
    }

    fn index(self) -> (i: usize) {
        self.0 as usize
    }

    proof fn lemma_index_determines(self, other: FuncRef) {
    }
}

impl ReservedValue for FuncRef {
    closed spec fn spec_reserved_value() -> FuncRef {
        FuncRef(u32::MAX)
    }

    fn reserved_value() -> (r: FuncRef)
        ensures
            r@ == u32::MAX,
    {
        FuncRef(u32::MAX)
    }

    fn is_reserved_value(&self) -> (b: bool)
        ensures
            b == (self@ == u32::MAX),
    {
        self.0 == u32::MAX
    }
}

impl FuncRef {
    /// The prefix of the name of an external function.
    pub open spec fn prefix() -> Seq<char> {
        seq!['f', 'n']
    }

    /// The name of the external function: `fn2` for the one with index 2.
    pub open spec fn text(self) -> Seq<char> {
        Self::prefix() + decimal(self@)
    }

    /// The number that a reference holds fits in 32 bits, and the reserved
    /// value holds the largest of them.
    pub proof fn lemma_view(self)
        ensures
            self@ <= u32::MAX,
            Self::spec_reserved_value()@ == u32::MAX,
    {
    }

    /// The name of the external function.
    pub fn to_string(&self) -> (s: String)
        ensures
            s@ == self.text(),
    {
        proof {
            reveal_strlit("fn");
            assert("fn"@ =~= Self::prefix());
        }
        prefixed("fn", self.0)
    }
}

/// A reference to a function signature that the preamble declares.
#[derive(Copy, Clone, PartialEq, Eq, Hash, Debug, Structural)]
pub struct SigRef(u32);

impl View for SigRef {
    type V = nat;

    closed spec fn view(&self) -> nat {
        self.0 as nat
    }
}

impl EntityRef for SigRef {
    open spec fn spec_index(self) -> nat {
        self@
    }

    fn new(index: usize) -> (r: SigRef) {
        SigRef(index as u32)
    }

    fn index(self) -> (i: usize) {
        self.0 as usize
    }

    proof fn lemma_index_determines(self, other: SigRef) {
    }
}

impl ReservedValue for SigRef {
    closed spec fn spec_reserved_value() -> SigRef {
        SigRef(u32::MAX)
    }

    fn reserved_value() -> (r: SigRef)
        ensures
            r@ == u32::MAX,
    {
        SigRef(u32::MAX)
    }

    fn is_reserved_value(&self) -> (b: bool)
        ensures
            b == (self@ == u32::MAX),
    {
        self.0 == u32::MAX
    }
}

impl SigRef {
    /// The prefix of the name of a signature.
    pub open spec fn prefix() -> Seq<char> {
        seq!['s', 'i', 'g']
    }

    /// The name of the signature: `sig4` for the one with index 4.
    pub open spec fn text(self) -> Seq<char> {
        Self::prefix() + decimal(self@)
    }

    /// The number that a reference holds fits in 32 bits, and the reserved
    /// value holds the largest of them.
    pub proof fn lemma_view(self)
        ensures
            self@ <= u32::MAX,
            Self::spec_reserved_value()@ == u32::MAX,
    {
    }

    /// The name of the signature.
    pub fn to_string(&self) -> (s: String)
        ensures
            s@ == self.text(),
    {
        proof {
            reveal_strlit("sig");
            assert("sig"@ =~= Self::prefix());
        }
        prefixed("sig", self.0)
    }
}

/// A reference to any one entity of a function, or to the function itself.
///
/// It serves where a message has to name what it is about, whatever kind of
/// entity that is. It is a label and no more: holding one says nothing about
/// whether the entity still exists.
#[derive(Copy, Clone, PartialEq, Eq, Hash, Debug, Structural)]
pub enum AnyEntity {
    /// The whole function.
    Function,
    /// An extended basic block.
    Ebb(Ebb),
    /// An instruction.
    Inst(Inst),
    /// An SSA value.
    Value(Value),
    /// A stack slot.
    StackSlot(StackSlot),
    /// A jump table.
    JumpTable(JumpTable),
    /// An external function.
    FuncRef(FuncRef),
    /// A function call signature.
    SigRef(SigRef),
}

impl AnyEntity {
    /// The name of the entity: that of the reference it holds, and the word
    /// `function` for the function itself.
    pub open spec fn text(self) -> Seq<char> {
        match self {
            AnyEntity::Function => seq!['f', 'u', 'n', 'c', 't', 'i', 'o', 'n'],
            AnyEntity::Ebb(r) => r.text(),
            AnyEntity::Inst(r) => r.text(),
            AnyEntity::Value(r) => r.text(),
            AnyEntity::StackSlot(r) => r.text(),
            AnyEntity::JumpTable(r) => r.text(),
            AnyEntity::FuncRef(r) => r.text(),
            AnyEntity::SigRef(r) => r.text(),
        }
    }

    /// The name of the entity.
    pub fn to_string(&self) -> (s: String)
        ensures
            s@ == self.text(),
    {
        match *self {
            AnyEntity::Function => {
                proof {
                    reveal_strlit("function");
                    assert("function"@ =~= self.text());
                }
                String::from_str("function")
            },
            AnyEntity::Ebb(r) => r.to_string(),
            AnyEntity::Inst(r) => r.to_string(),
            AnyEntity::Value(r) => r.to_string(),
            AnyEntity::StackSlot(r) => r.to_string(),
            AnyEntity::JumpTable(r) => r.to_string(),
            AnyEntity::FuncRef(r) => r.to_string(),
            AnyEntity::SigRef(r) => r.to_string(),
        }
    }
}

impl From<Ebb> for AnyEntity {
    fn from(r: Ebb) -> (e: AnyEntity) {
        AnyEntity::Ebb(r)
    }
}

impl FromSpecImpl<Ebb> for AnyEntity {
    open spec fn obeys_from_spec() -> bool {
        true
    }

    open spec fn from_spec(r: Ebb) -> AnyEntity {
        AnyEntity::Ebb(r)
    }
}

impl From<Value> for AnyEntity {
    fn from(r: Value) -> (e: AnyEntity) {
        AnyEntity::Value(r)
    }
}

impl FromSpecImpl<Value> for AnyEntity {
    open spec fn obeys_from_spec() -> bool {
        true
    }

    open spec fn from_spec(r: Value) -> AnyEntity {
        AnyEntity::Value(r)
    }
}

impl From<Inst> for AnyEntity {
    fn from(r: Inst) -> (e: AnyEntity) {
        AnyEntity::Inst(r)
    }
}

impl FromSpecImpl<Inst> for AnyEntity {
    open spec fn obeys_from_spec() -> bool {
        true
    }

    open spec fn from_spec(r: Inst) -> AnyEntity {
        AnyEntity::Inst(r)
    }
}

impl From<StackSlot> for AnyEntity {
    fn from(r: StackSlot) -> (e: AnyEntity) {
        AnyEntity::StackSlot(r)
    }
}

impl FromSpecImpl<StackSlot> for AnyEntity {
    open spec fn obeys_from_spec() -> bool {
        true
    }

    open spec fn from_spec(r: StackSlot) -> AnyEntity {
        AnyEntity::StackSlot(r)
    }
}

impl From<JumpTable> for AnyEntity {
    fn from(r: JumpTable) -> (e: AnyEntity) {
        AnyEntity::JumpTable(r)
    }
}

impl FromSpecImpl<JumpTable> for AnyEntity {
    open spec fn obeys_from_spec() -> bool {
        true
    }

    open spec fn from_spec(r: JumpTable) -> AnyEntity {
        AnyEntity::JumpTable(r)
    }
}

impl From<FuncRef> for AnyEntity {
    fn from(r: FuncRef) -> (e: AnyEntity) {
        AnyEntity::FuncRef(r)
    }
}

impl FromSpecImpl<FuncRef> for AnyEntity {
    open spec fn obeys_from_spec() -> bool {
        true
    }

    open spec fn from_spec(r: FuncRef) -> AnyEntity {
        AnyEntity::FuncRef(r)
    }
}

impl From<SigRef> for AnyEntity {
    fn from(r: SigRef) -> (e: AnyEntity) {
        AnyEntity::SigRef(r)
    }
}

impl FromSpecImpl<SigRef> for AnyEntity {
    open spec fn obeys_from_spec() -> bool {
        true
    }

    open spec fn from_spec(r: SigRef) -> AnyEntity {
        AnyEntity::SigRef(r)
    }
}

/// A reference made from an index is never the reserved value of its kind.
pub proof fn lemma_new_is_not_reserved(
    index: usize,
    ebb: Ebb,
    value: Value,
    inst: Inst,
    stack_slot: StackSlot,
    jump_table: JumpTable,
    func_ref: FuncRef,
    sig_ref: SigRef,
)
    requires
        index < u32::MAX,
    ensures
        call_ensures(Ebb::new, (index,), ebb)
            ==> ebb != Ebb::spec_reserved_value(),
        call_ensures(Value::new, (index,), value)
            ==> value != Value::spec_reserved_value(),
        call_ensures(Inst::new, (index,), inst)
            ==> inst != Inst::spec_reserved_value(),
        call_ensures(StackSlot::new, (index,), stack_slot)
            ==> stack_slot != StackSlot::spec_reserved_value(),
        call_ensures(JumpTable::new, (index,), jump_table)
            ==> jump_table != JumpTable::spec_reserved_value(),
        call_ensures(FuncRef::new, (index,), func_ref)
            ==> func_ref != FuncRef::spec_reserved_value(),
        call_ensures(SigRef::new, (index,), sig_ref)
            ==> sig_ref != SigRef::spec_reserved_value(),
{
}

/// The name of a reference made from an index is the prefix of its kind
/// followed by the index in decimal, and nothing else.
pub proof fn lemma_text_of_new(
    index: usize,
    ebb: Ebb,
    value: Value,
    inst: Inst,
    stack_slot: StackSlot,
    jump_table: JumpTable,
    func_ref: FuncRef,
    sig_ref: SigRef,
)
    requires
        index < u32::MAX,
    ensures
        call_ensures(Ebb::new, (index,), ebb)
            ==> ebb.text() == Ebb::prefix() + decimal(index as nat),
        call_ensures(Value::new, (index,), value)
            ==> value.text() == Value::prefix() + decimal(index as nat),
        call_ensures(Inst::new, (index,), inst)
            ==> inst.text() == Inst::prefix() + decimal(index as nat),
        call_ensures(StackSlot::new, (index,), stack_slot)
            ==> stack_slot.text() == StackSlot::prefix() + decimal(index as nat),
        call_ensures(JumpTable::new, (index,), jump_table)
            ==> jump_table.text() == JumpTable::prefix() + decimal(index as nat),
        call_ensures(FuncRef::new, (index,), func_ref)
            ==> func_ref.text() == FuncRef::prefix() + decimal(index as nat),
        call_ensures(SigRef::new, (index,), sig_ref)
            ==> sig_ref.text() == SigRef::prefix() + decimal(index as nat),
{
}

/// A reference has the same name whether it stands alone or inside an
/// [`AnyEntity`].
pub proof fn lemma_any_entity_text(
    ebb: Ebb,
    value: Value,
    inst: Inst,
    stack_slot: StackSlot,
    jump_table: JumpTable,
    func_ref: FuncRef,
    sig_ref: SigRef,
)
    ensures
        <AnyEntity as FromSpec<Ebb>>::from_spec(ebb).text() == ebb.text(),
        <AnyEntity as FromSpec<Value>>::from_spec(value).text() == value.text(),
        <AnyEntity as FromSpec<Inst>>::from_spec(inst).text() == inst.text(),
        <AnyEntity as FromSpec<StackSlot>>::from_spec(stack_slot).text() == stack_slot.text(),
        <AnyEntity as FromSpec<JumpTable>>::from_spec(jump_table).text() == jump_table.text(),
        <AnyEntity as FromSpec<FuncRef>>::from_spec(func_ref).text() == func_ref.text(),
        <AnyEntity as FromSpec<SigRef>>::from_spec(sig_ref).text() == sig_ref.text(),
{
}

/// A name that starts with `prefix` and goes on with a numeral has a digit
/// right behind the prefix, and gives the number back.
proof fn lemma_prefixed_numeral(prefix: Seq<char>, n: nat)
    ensures
        (prefix + decimal(n)).len() > prefix.len(),
        is_digit((prefix + decimal(n))[prefix.len() as int]),
        (prefix + decimal(n)).skip(prefix.len() as int) == decimal(n),
        forall|i: int| 0 <= i < prefix.len() ==> (prefix + decimal(n))[i] == prefix[i],
{
    lemma_decimal_digits(n);
    assert((prefix + decimal(n))[prefix.len() as int] == decimal(n)[0]);
    assert((prefix + decimal(n)).skip(prefix.len() as int) =~= decimal(n));
}

/// No two entities have the same name: the text of a function can name
/// every entity, and a name read back means the entity it was written for.
pub proof fn lemma_text_determines(a: AnyEntity, b: AnyEntity)
    requires
        a.text() == b.text(),
    ensures
        a == b,
{
    let text = a.text();
    lemma_any_entity_head(a);
    lemma_any_entity_head(b);
    match (a, b) {
        (AnyEntity::Ebb(x), AnyEntity::Ebb(y)) => {
            lemma_decimal_injective(x@, y@);
            x.lemma_index_determines(y);
        },
        (AnyEntity::Value(x), AnyEntity::Value(y)) => {
            lemma_decimal_injective(x@, y@);
            x.lemma_index_determines(y);
        },
        (AnyEntity::Inst(x), AnyEntity::Inst(y)) => {
            lemma_decimal_injective(x@, y@);
            x.lemma_index_determines(y);
        },
        (AnyEntity::StackSlot(x), AnyEntity::StackSlot(y)) => {
            lemma_decimal_injective(x@, y@);
            x.lemma_index_determines(y);
        },
        (AnyEntity::JumpTable(x), AnyEntity::JumpTable(y)) => {
            lemma_decimal_injective(x@, y@);
            x.lemma_index_determines(y);
        },
        (AnyEntity::FuncRef(x), AnyEntity::FuncRef(y)) => {
            lemma_decimal_injective(x@, y@);
            x.lemma_index_determines(y);
        },
        (AnyEntity::SigRef(x), AnyEntity::SigRef(y)) => {
            lemma_decimal_injective(x@, y@);
            x.lemma_index_determines(y);
        },
        _ => {},
    }
}

/// The first two characters of a name tell the kind of the entity, and what
/// follows the prefix is the numeral of the index.
proof fn lemma_any_entity_head(e: AnyEntity)
    ensures
        match e {
            AnyEntity::Function => e.text()[0] == 'f' && e.text()[1] == 'u',
            AnyEntity::Ebb(r) => e.text()[0] == 'e'
                && e.text()[1] == 'b'
                && e.text().skip(3) == decimal(r@),
            AnyEntity::Value(r) => e.text()[0] == 'v'
                && is_digit(e.text()[1])
                && e.text().skip(1) == decimal(r@),
            AnyEntity::Inst(r) => e.text()[0] == 'i'
                && e.text()[1] == 'n'
                && e.text().skip(4) == decimal(r@),
            AnyEntity::StackSlot(r) => e.text()[0] == 's'
                && e.text()[1] == 's'
                && e.text().skip(2) == decimal(r@),
            AnyEntity::JumpTable(r) => e.text()[0] == 'j'
                && e.text()[1] == 't'
                && e.text().skip(2) == decimal(r@),
            AnyEntity::FuncRef(r) => e.text()[0] == 'f'
                && e.text()[1] == 'n'
                && e.text().skip(2) == decimal(r@),
            AnyEntity::SigRef(r) => e.text()[0] == 's'
                && e.text()[1] == 'i'
                && e.text().skip(3) == decimal(r@),
        },
{
    match e {
        AnyEntity::Function => {},
        AnyEntity::Ebb(r) => lemma_prefixed_numeral(Ebb::prefix(), r@),
        AnyEntity::Value(r) => lemma_prefixed_numeral(Value::prefix(), r@),
        AnyEntity::Inst(r) => lemma_prefixed_numeral(Inst::prefix(), r@),
        AnyEntity::StackSlot(r) => lemma_prefixed_numeral(StackSlot::prefix(), r@),
        AnyEntity::JumpTable(r) => lemma_prefixed_numeral(JumpTable::prefix(), r@),
        AnyEntity::FuncRef(r) => lemma_prefixed_numeral(FuncRef::prefix(), r@),
        AnyEntity::SigRef(r) => lemma_prefixed_numeral(SigRef::prefix(), r@),
    }
}

} // verus!
