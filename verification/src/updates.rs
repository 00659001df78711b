//! Updates: documents modifying the documents of a collection.

use vstd::prelude::*;

use crate::conversions::HuusKey;
use crate::document::{Bson, BsonV, DocV, Document, doc_insert, doc_insert_all, keys_unique, lemma_document_view};
use crate::text::{concat, copy_string};
use crate::types::{Date, Double, ObjectId, TimeStamp};
use crate::values::{BuildValue, PullValue, PushValue, Value};

verus! {

/// Values that build a whole update.
pub trait BuildUpdate: Sized {
    /// The update. Types implemented outside verified code may leave it unstated.
    open spec fn update_of(self) -> UpdateV {
        vstd::pervasive::arbitrary::<spec_fn(Self) -> UpdateV>()(self)
    }

    /// Builds the update.
    fn build_update(self) -> (r: Update)
        ensures
            r@ == self.update_of(),
    ;
}

/// Values that build the update of a field.
pub trait BuildInnerUpdate: Sized {
    /// The update of the given field. Types implemented outside verified code may leave it
    /// unstated.
    open spec fn inner_update_of(self, field: Seq<char>) -> UpdateV {
        vstd::pervasive::arbitrary::<spec_fn(Self, Seq<char>) -> UpdateV>()(self, field)
    }

    /// Builds the update of the given field.
    fn build_update(self, field: String) -> (r: Update)
        ensures
            r@ == self.inner_update_of(field@),
    ;
}

/// Which element `$pop` removes from an array.
#[derive(Clone, Copy, Debug, PartialEq, Eq)]
pub enum PopOption {
    First,
    Last,
}

impl PopOption {
    /// The number written for the option.
    pub open spec fn spec_as_number(self) -> i32 {
        match self {
            PopOption::First => -1i32,
            PopOption::Last => 1,
        }
    }

    /// Returns the number written for the option.
    pub fn as_number(&self) -> (r: i32)
        ensures
            r == self.spec_as_number(),
    {
        match self {
            PopOption::First => -1,
            PopOption::Last => 1,
        }
    }
}

/// Which elements of an array an update applies to.
#[derive(Clone, Copy, Debug, PartialEq, Eq)]
pub enum Operator {
    /// The array itself.
    Whole,
    /// The first element matching the filter (`.$`).
    First,
}

impl Operator {
    /// The suffix added to the field.
    pub open spec fn spec_to_string(self) -> Seq<char> {
        match self {
            Operator::Whole => ""@,
            Operator::First => ".$"@,
        }
    }

    /// Returns the suffix added to the field.
    pub fn to_string(&self) -> (r: &'static str)
        ensures
            r@ == self.spec_to_string(),
    {
        match self {
            Operator::Whole => "",
            Operator::First => ".$",
        }
    }
}

// -------------------------------------------------------------------------------------------------

/// The update operators, in the order their documents are written.
#[derive(Clone, Copy, Debug, PartialEq, Eq)]
pub enum UpdateOperator {
    Inc,
    Min,
    Max,
    Mul,
    Rename,
    SetValue,
    SetOnInsert,
    Unset,
    AddToSet,
    Pop,
    Pull,
    Push,
    PullAll,
    CurrentDate,
}

/// The number of update operators.
pub open spec fn operator_count() -> int {
    14
}

impl UpdateOperator {
    /// The position of the operator.
    pub open spec fn index(self) -> int {
        match self {
            UpdateOperator::Inc => 0,
            UpdateOperator::Min => 1,
            UpdateOperator::Max => 2,
            UpdateOperator::Mul => 3,
            UpdateOperator::Rename => 4,
            UpdateOperator::SetValue => 5,
            UpdateOperator::SetOnInsert => 6,
            UpdateOperator::Unset => 7,
            UpdateOperator::AddToSet => 8,
            UpdateOperator::Pop => 9,
            UpdateOperator::Pull => 10,
            UpdateOperator::Push => 11,
            UpdateOperator::PullAll => 12,
            UpdateOperator::CurrentDate => 13,
        }
    }
}

/// The name of the operator at a position.
pub open spec fn operator_name(k: int) -> Seq<char> {
    if k == 0 {
        "$inc"@
    } else if k == 1 {
        "$min"@
    } else if k == 2 {
        "$max"@
    } else if k == 3 {
        "$mul"@
    } else if k == 4 {
        "$rename"@
    } else if k == 5 {
        "$set"@
    } else if k == 6 {
        "$setOnInsert"@
    } else if k == 7 {
        "$unset"@
    } else if k == 8 {
        "$addToSet"@
    } else if k == 9 {
        "$pop"@
    } else if k == 10 {
        "$pull"@
    } else if k == 11 {
        "$push"@
    } else if k == 12 {
        "$pullAll"@
    } else {
        "$currentDate"@
    }
}

/// An instruction of an update operator: the path of the field and the value.
#[derive(Debug)]
pub struct UpdateInstruction {
    pub path: Vec<String>,
    pub value: Value,
}

/// The view of an instruction: the parts of the path and the value.
pub type InstructionV = (Seq<Seq<char>>, BsonV);

impl View for UpdateInstruction {
    type V = InstructionV;

    open spec fn view(&self) -> InstructionV {
        (self.path@.map_values(|s: String| s@), self.value@)
    }
}

impl UpdateInstruction {
    /// The instruction for a field.
    pub fn new(field: String, value: Value) -> (r: Self)
        ensures
            r@ == (seq![field@], value@),
    {
        let path = vec![field];
        let r = Self { path, value };
        assert(r@.0 =~= seq![r.path@[0]@]);
        r
    }
}

/// The view of an update: the document of the fields set directly and the instructions of
/// each operator, in the order of the operators.
pub struct UpdateV {
    pub doc: DocV,
    pub lists: Seq<Seq<InstructionV>>,
}

/// No instruction for any operator.
pub open spec fn empty_lists() -> Seq<Seq<InstructionV>> {
    Seq::new(14, |k: int| Seq::<InstructionV>::empty())
}

/// The update that does nothing.
pub open spec fn empty_update() -> UpdateV {
    UpdateV { doc: DocV::empty(), lists: empty_lists() }
}

/// The update that sets a field to a value.
pub open spec fn field_update(field: Seq<char>, value: BsonV) -> UpdateV {
    UpdateV { doc: seq![(field, value)], lists: empty_lists() }
}

/// The update made of a single instruction of an operator.
pub open spec fn operator_update(op: UpdateOperator, field: Seq<char>, value: BsonV) -> UpdateV {
    UpdateV { doc: DocV::empty(), lists: empty_lists().update(op.index(), seq![(seq![field], value)]) }
}

/// The path of a field: its parts joined by dots.
pub open spec fn path_text(path: Seq<Seq<char>>) -> Seq<char>
    decreases path.len(),
{
    if path.len() == 0 {
        Seq::empty()
    } else if path.len() == 1 {
        path[0]
    } else {
        path_text(path.drop_last()) + "."@ + path.last()
    }
}

/// The document of the instructions of an operator: each instruction sets its path, the last
/// instruction first.
pub open spec fn instructions_doc(list: Seq<InstructionV>) -> DocV
    decreases list.len(),
{
    if list.len() == 0 {
        DocV::empty()
    } else {
        doc_insert(instructions_doc(list.drop_first()), path_text(list[0].0), list[0].1)
    }
}

/// The document of the first `k` operators, written after the fields set directly: each
/// operator with instructions sets its name to the document of its instructions.
pub open spec fn operators_doc(doc: DocV, lists: Seq<Seq<InstructionV>>, k: int) -> DocV
    decreases k,
{
    if k <= 0 {
        doc
    } else {
        let prev = operators_doc(doc, lists, k - 1);
        if lists[k - 1].len() > 0 {
            doc_insert(prev, operator_name(k - 1), BsonV::Document(instructions_doc(lists[k - 1])))
        } else {
            prev
        }
    }
}

/// The document of an update.
pub open spec fn update_doc(u: UpdateV) -> DocV {
    operators_doc(u.doc, u.lists, 14)
}

/// The update after another one was added to it.
pub open spec fn incorporated(a: UpdateV, b: UpdateV) -> UpdateV {
    UpdateV {
        doc: doc_insert_all(a.doc, b.doc),
        lists: Seq::new(14, |k: int| a.lists[k] + b.lists[k]),
    }
}

/// The views of instructions.
pub open spec fn instructions_view(list: Seq<UpdateInstruction>) -> Seq<InstructionV> {
    list.map_values(|i: UpdateInstruction| i@)
}

/// An update: fields set directly and the instructions of each operator.
#[derive(Debug)]
pub struct Update {
    doc: Document,
    inc_instructions: Vec<UpdateInstruction>,
    min_instructions: Vec<UpdateInstruction>,
    max_instructions: Vec<UpdateInstruction>,
    mul_instructions: Vec<UpdateInstruction>,
    rename_instructions: Vec<UpdateInstruction>,
    set_instructions: Vec<UpdateInstruction>,
    set_on_insert_instructions: Vec<UpdateInstruction>,
    unset_instructions: Vec<UpdateInstruction>,
    add_to_set_instructions: Vec<UpdateInstruction>,
    pop_instructions: Vec<UpdateInstruction>,
    pull_instructions: Vec<UpdateInstruction>,
    push_instructions: Vec<UpdateInstruction>,
    pull_all_instructions: Vec<UpdateInstruction>,
    current_date_instructions: Vec<UpdateInstruction>,
}

impl View for Update {
    type V = UpdateV;

    closed spec fn view(&self) -> UpdateV {
        UpdateV {
            doc: self.doc@,
            lists: seq![
                instructions_view(self.inc_instructions@),
                instructions_view(self.min_instructions@),
                instructions_view(self.max_instructions@),
                instructions_view(self.mul_instructions@),
                instructions_view(self.rename_instructions@),
                instructions_view(self.set_instructions@),
                instructions_view(self.set_on_insert_instructions@),
                instructions_view(self.unset_instructions@),
                instructions_view(self.add_to_set_instructions@),
                instructions_view(self.pop_instructions@),
                instructions_view(self.pull_instructions@),
                instructions_view(self.push_instructions@),
                instructions_view(self.pull_all_instructions@),
                instructions_view(self.current_date_instructions@),
            ],
        }
    }
}

/// Appends the instructions of `source` to `target`.
fn append_instructions(target: &mut Vec<UpdateInstruction>, source: Vec<UpdateInstruction>)
    ensures
        instructions_view(final(target)@) == instructions_view(old(target)@) + instructions_view(
            source@,
        ),
{
    let ghost all = source@;
    let ghost start = instructions_view(target@);
    let mut source = source;
    let n = source.len();
    let mut k: usize = 0;
    while k < n
        invariant
            k <= n == all.len(),
            source@ == all.subrange(k as int, n as int),
            instructions_view(target@) == start + instructions_view(all.subrange(0, k as int)),
        decreases n - k,
    {
        let instruction = source.remove(0);
        assert(source@ =~= all.subrange(k + 1, n as int));
        let ghost before = instructions_view(target@);
        target.push(instruction);
        assert(instructions_view(target@) =~= before.push(all[k as int]@));
        assert(instructions_view(all.subrange(0, k + 1)) =~= instructions_view(
            all.subrange(0, k as int),
        ).push(all[k as int]@));
        k = k + 1;
    }
    assert(all.subrange(0, n as int) =~= all);
}

/// Returns the path of a field: its parts joined by dots.
fn path_string(path: &Vec<String>) -> (r: String)
    ensures
        r@ == path_text(path@.map_values(|s: String| s@)),
{
    let ghost parts = path@.map_values(|s: String| s@);
    let mut result = String::new();
    let mut i: usize = 0;
    assert(result@ =~= path_text(parts.subrange(0, 0)));
    while i < path.len()
        invariant
            i <= path@.len(),
            parts == path@.map_values(|s: String| s@),
            result@ == path_text(parts.subrange(0, i as int)),
        decreases path@.len() - i,
    {
        let ghost prefix = parts.subrange(0, i + 1);
        assert(prefix.drop_last() =~= parts.subrange(0, i as int));
        if i > 0 {
            result = concat(result.as_str(), ".");
        }
        result = concat(result.as_str(), path[i].as_str());
        proof {
            reveal_strlit(".");
            if i == 0 {
                assert(result@ =~= path_text(prefix));
            } else {
                assert(result@ =~= path_text(prefix));
            }
        }
        i = i + 1;
    }
    assert(parts.subrange(0, path@.len() as int) =~= parts);
    result
}

/// Writes the document of the instructions of an operator, if there are any.
fn build_operator(result: &mut Document, operator: &str, instructions: Vec<UpdateInstruction>)
    ensures
        final(result)@ == (if instructions@.len() > 0 {
            doc_insert(
                old(result)@,
                operator@,
                BsonV::Document(instructions_doc(instructions_view(instructions@))),
            )
        } else {
            old(result)@
        }),
{
    if instructions.len() == 0 {
        return;
    }
    let ghost all = instructions_view(instructions@);
    let n = instructions.len();
    let mut instructions = instructions;
    let mut doc = Document::new();
    let mut k: usize = 0;
    assert(doc@ =~= instructions_doc(all.subrange(n as int, n as int)));
    while k < n
        invariant
            k <= n == all.len(),
            instructions@.len() == n - k,
            instructions_view(instructions@) == all.subrange(0, n - k),
            doc@ == instructions_doc(all.subrange(n - k, n as int)),
        decreases n - k,
    {
        let ghost before = instructions@;
        let instruction = instructions.pop().unwrap();
        assert(instructions_view(before)[n - k - 1] == before[n - k - 1]@);
        assert(instruction@ == all[n - k - 1]);
        assert(instructions_view(instructions@) =~= all.subrange(0, n - k - 1));
        let path = path_string(&instruction.path);
        doc.insert(path, instruction.value.into_bson());
        assert(all.subrange(n - k - 1, n as int).drop_first() =~= all.subrange(n - k, n as int));
        k = k + 1;
    }
    assert(all.subrange(0, n as int) =~= all);
    proof {
        lemma_document_view(doc);
    }
    result.insert(copy_string(operator), Bson::Document(doc));
}

impl Update {
    /// The fields set directly have distinct names.
    #[verifier::type_invariant]
    spec fn fields_distinct(self) -> bool {
        keys_unique(self.doc@)
    }

    /// The update that does nothing.
    pub fn empty() -> (r: Self)
        ensures
            r@ == empty_update(),
    {
        let r = Self {
            doc: Document::new(),
            inc_instructions: Vec::new(),
            min_instructions: Vec::new(),
            max_instructions: Vec::new(),
            mul_instructions: Vec::new(),
            rename_instructions: Vec::new(),
            set_instructions: Vec::new(),
            set_on_insert_instructions: Vec::new(),
            unset_instructions: Vec::new(),
            add_to_set_instructions: Vec::new(),
            pop_instructions: Vec::new(),
            pull_instructions: Vec::new(),
            push_instructions: Vec::new(),
            pull_all_instructions: Vec::new(),
            current_date_instructions: Vec::new(),
        };
        assert(instructions_view(Seq::<UpdateInstruction>::empty()) =~= Seq::<InstructionV>::empty());
        assert(r@.lists =~= empty_lists());
        r
    }

    /// The update that sets a field to a value.
    pub fn with_field(field: String, value: Bson) -> (r: Self)
        ensures
            r@ == field_update(field@, value.view_rec()),
    {
        let ghost v = value.view_rec();
        let mut doc = Document::new();
        proof {
            crate::document::law_insert_keeps_keys_unique(doc@, field@, v);
        }
        doc.insert(field, value);
        proof {
            reveal(Seq::filter);
        }
        assert(doc@ =~= seq![(field@, v)]);
        let update = Self {
            doc,
            inc_instructions: Vec::new(),
            min_instructions: Vec::new(),
            max_instructions: Vec::new(),
            mul_instructions: Vec::new(),
            rename_instructions: Vec::new(),
            set_instructions: Vec::new(),
            set_on_insert_instructions: Vec::new(),
            unset_instructions: Vec::new(),
            add_to_set_instructions: Vec::new(),
            pop_instructions: Vec::new(),
            pull_instructions: Vec::new(),
            push_instructions: Vec::new(),
            pull_all_instructions: Vec::new(),
            current_date_instructions: Vec::new(),
        };
        assert(instructions_view(Seq::<UpdateInstruction>::empty()) =~= Seq::<InstructionV>::empty());
        assert(update@.lists =~= empty_lists());
        update
    }

    /// The update made of a single instruction of an operator.
    pub fn with_operator(operator: UpdateOperator, field: String, value: Value) -> (r: Self)
        ensures
            r@ == operator_update(operator, field@, value@),
    {
        let mut inc: Vec<UpdateInstruction> = Vec::new();
        let mut min: Vec<UpdateInstruction> = Vec::new();
        let mut max: Vec<UpdateInstruction> = Vec::new();
        let mut mul: Vec<UpdateInstruction> = Vec::new();
        let mut rename: Vec<UpdateInstruction> = Vec::new();
        let mut set: Vec<UpdateInstruction> = Vec::new();
        let mut set_on_insert: Vec<UpdateInstruction> = Vec::new();
        let mut unset: Vec<UpdateInstruction> = Vec::new();
        let mut add_to_set: Vec<UpdateInstruction> = Vec::new();
        let mut pop: Vec<UpdateInstruction> = Vec::new();
        let mut pull: Vec<UpdateInstruction> = Vec::new();
        let mut push: Vec<UpdateInstruction> = Vec::new();
        let mut pull_all: Vec<UpdateInstruction> = Vec::new();
        let mut current_date: Vec<UpdateInstruction> = Vec::new();
        assert(instructions_view(Seq::<UpdateInstruction>::empty()) =~= Seq::<InstructionV>::empty());
        let instruction = UpdateInstruction::new(field, value);
        let ghost iv = instruction@;
        assert(instructions_view(seq![instruction]) =~= seq![iv]);
        assert(instructions_view(Seq::<UpdateInstruction>::empty().push(instruction)) =~= seq![iv]);
        match operator {
            UpdateOperator::Inc => inc.push(instruction),
            UpdateOperator::Min => min.push(instruction),
            UpdateOperator::Max => max.push(instruction),
            UpdateOperator::Mul => mul.push(instruction),
            UpdateOperator::Rename => rename.push(instruction),
            UpdateOperator::SetValue => set.push(instruction),
            UpdateOperator::SetOnInsert => set_on_insert.push(instruction),
            UpdateOperator::Unset => unset.push(instruction),
            UpdateOperator::AddToSet => add_to_set.push(instruction),
            UpdateOperator::Pop => pop.push(instruction),
            UpdateOperator::Pull => pull.push(instruction),
            UpdateOperator::Push => push.push(instruction),
            UpdateOperator::PullAll => pull_all.push(instruction),
            UpdateOperator::CurrentDate => current_date.push(instruction),
        }
        let doc = Document::new();
        let update = Self {
            doc,
            inc_instructions: inc,
            min_instructions: min,
            max_instructions: max,
            mul_instructions: mul,
            rename_instructions: rename,
            set_instructions: set,
            set_on_insert_instructions: set_on_insert,
            unset_instructions: unset,
            add_to_set_instructions: add_to_set,
            pop_instructions: pop,
            pull_instructions: pull,
            push_instructions: push,
            pull_all_instructions: pull_all,
            current_date_instructions: current_date,
        };
        assert(update@.lists =~= empty_lists().update(operator.index(), seq![iv]));
        update
    }

    /// Adds another update: its fields are set after these, its instructions follow these.
    pub fn incorporate(&mut self, update: Update)
        ensures
            final(self)@ == incorporated(old(self)@, update@),
            update@ == empty_update() ==> final(self)@ == old(self)@,
            old(self)@ == empty_update() ==> final(self)@ == update@,
    {
        proof {
            use_type_invariant(&*self);
            use_type_invariant(&update);
        }
        let ghost a = self@;
        let ghost b = update@;
        let mut this = Update::empty();
        std::mem::swap(&mut this, self);
        let Update {
            doc: mut doc,
            inc_instructions: mut inc,
            min_instructions: mut min,
            max_instructions: mut max,
            mul_instructions: mut mul,
            rename_instructions: mut rename,
            set_instructions: mut set,
            set_on_insert_instructions: mut set_on_insert,
            unset_instructions: mut unset,
            add_to_set_instructions: mut add_to_set,
            pop_instructions: mut pop,
            pull_instructions: mut pull,
            push_instructions: mut push,
            pull_all_instructions: mut pull_all,
            current_date_instructions: mut current_date,
        } = this;
        let Update {
            doc: other_doc,
            inc_instructions: other_inc,
            min_instructions: other_min,
            max_instructions: other_max,
            mul_instructions: other_mul,
            rename_instructions: other_rename,
            set_instructions: other_set,
            set_on_insert_instructions: other_set_on_insert,
            unset_instructions: other_unset,
            add_to_set_instructions: other_add_to_set,
            pop_instructions: other_pop,
            pull_instructions: other_pull,
            push_instructions: other_push,
            pull_all_instructions: other_pull_all,
            current_date_instructions: other_current_date,
        } = update;
        proof {
            crate::document::law_insert_all_keeps_keys_unique(doc@, other_doc@);
        }
        doc.insert_all(other_doc);
        append_instructions(&mut inc, other_inc);
        append_instructions(&mut min, other_min);
        append_instructions(&mut max, other_max);
        append_instructions(&mut mul, other_mul);
        append_instructions(&mut rename, other_rename);
        append_instructions(&mut set, other_set);
        append_instructions(&mut set_on_insert, other_set_on_insert);
        append_instructions(&mut unset, other_unset);
        append_instructions(&mut add_to_set, other_add_to_set);
        append_instructions(&mut pop, other_pop);
        append_instructions(&mut pull, other_pull);
        append_instructions(&mut push, other_push);
        append_instructions(&mut pull_all, other_pull_all);
        append_instructions(&mut current_date, other_current_date);
        *self = Update {
            doc,
            inc_instructions: inc,
            min_instructions: min,
            max_instructions: max,
            mul_instructions: mul,
            rename_instructions: rename,
            set_instructions: set,
            set_on_insert_instructions: set_on_insert,
            unset_instructions: unset,
            add_to_set_instructions: add_to_set,
            pop_instructions: pop,
            pull_instructions: pull,
            push_instructions: push,
            pull_all_instructions: pull_all,
            current_date_instructions: current_date,
        };
        assert(self@.lists =~= incorporated(a, b).lists);
        proof {
            law_incorporate_empty(a);
            law_empty_incorporate(b);
        }
    }

    /// Returns the document of the update: the fields set directly, then the document of each
    /// operator that has instructions.
    #[verifier::rlimit(40)]
    pub fn into_doc(self) -> (r: Document)
        ensures
            r@ == update_doc(self@),
    {
        let ghost u = self@;
        let mut res = self.doc;
        proof {
            reveal_strlit("$inc");
            reveal_strlit("$min");
            reveal_strlit("$max");
            reveal_strlit("$mul");
            reveal_strlit("$rename");
            reveal_strlit("$set");
            reveal_strlit("$setOnInsert");
            reveal_strlit("$unset");
            reveal_strlit("$addToSet");
            reveal_strlit("$pop");
            reveal_strlit("$pull");
            reveal_strlit("$push");
            reveal_strlit("$pullAll");
            reveal_strlit("$currentDate");
        }
        assert(res@ == operators_doc(u.doc, u.lists, 0));
        build_operator(&mut res, "$inc", self.inc_instructions);
        assert(res@ == operators_doc(u.doc, u.lists, 1));
        build_operator(&mut res, "$min", self.min_instructions);
        assert(res@ == operators_doc(u.doc, u.lists, 2));
        build_operator(&mut res, "$max", self.max_instructions);
        assert(res@ == operators_doc(u.doc, u.lists, 3));
        build_operator(&mut res, "$mul", self.mul_instructions);
        assert(res@ == operators_doc(u.doc, u.lists, 4));
        build_operator(&mut res, "$rename", self.rename_instructions);
        assert(res@ == operators_doc(u.doc, u.lists, 5));
        build_operator(&mut res, "$set", self.set_instructions);
        assert(res@ == operators_doc(u.doc, u.lists, 6));
        build_operator(&mut res, "$setOnInsert", self.set_on_insert_instructions);
        assert(res@ == operators_doc(u.doc, u.lists, 7));
        build_operator(&mut res, "$unset", self.unset_instructions);
        assert(res@ == operators_doc(u.doc, u.lists, 8));
        build_operator(&mut res, "$addToSet", self.add_to_set_instructions);
        assert(res@ == operators_doc(u.doc, u.lists, 9));
        build_operator(&mut res, "$pop", self.pop_instructions);
        assert(res@ == operators_doc(u.doc, u.lists, 10));
        build_operator(&mut res, "$pull", self.pull_instructions);
        assert(res@ == operators_doc(u.doc, u.lists, 11));
        build_operator(&mut res, "$push", self.push_instructions);
        assert(res@ == operators_doc(u.doc, u.lists, 12));
        build_operator(&mut res, "$pullAll", self.pull_all_instructions);
        assert(res@ == operators_doc(u.doc, u.lists, 13));
        build_operator(&mut res, "$currentDate", self.current_date_instructions);
        assert(res@ == operators_doc(u.doc, u.lists, 14));
        res
    }

    /// Returns the document of the update as a BSON value.
    pub fn into_bson(self) -> (r: Bson)
        ensures
            r.view_rec() == BsonV::Document(update_doc(self@)),
    {
        let doc = self.into_doc();
        proof {
            lemma_document_view(doc);
        }
        Bson::Document(doc)
    }
}

// -------------------------------------------------------------------------------------------------
// Operations

/// Setters of the updates of embedded documents.
pub trait ObjectUpdate<U: BuildInnerUpdate, V: BuildValue> {
    /// Sets the whole document.
    fn value(&mut self, value: V);

    /// Updates the fields of the document.
    fn dot(&mut self, update: U);
}

/// Setters of the numerical updates.
pub trait NumericalUpdate<V: BuildValue> {
    /// Increments by the value.
    fn inc(&mut self, value: V);

    /// Sets to the value if it is smaller.
    fn min(&mut self, value: V);

    /// Sets to the value if it is greater.
    fn max(&mut self, value: V);

    /// Multiplies by the value.
    fn mul(&mut self, value: V);
}

/// Numerical updates.
#[derive(Clone, Debug)]
pub enum Numerical<V: BuildValue> {
    Inc(V),
    Min(V),
    Max(V),
    Mul(V),
}

impl<V: BuildValue> BuildInnerUpdate for Numerical<V> {
    open spec fn inner_update_of(self, field: Seq<char>) -> UpdateV {
        match self {
            Numerical::Inc(v) => operator_update(UpdateOperator::Inc, field, v.value_of()),
            Numerical::Min(v) => operator_update(UpdateOperator::Min, field, v.value_of()),
            Numerical::Max(v) => operator_update(UpdateOperator::Max, field, v.value_of()),
            Numerical::Mul(v) => operator_update(UpdateOperator::Mul, field, v.value_of()),
        }
    }

    fn build_update(self, field: String) -> (r: Update) {
        match self {
            Numerical::Inc(value) => Update::with_operator(UpdateOperator::Inc, field, value.build_value()),
            Numerical::Min(value) => Update::with_operator(UpdateOperator::Min, field, value.build_value()),
            Numerical::Max(value) => Update::with_operator(UpdateOperator::Max, field, value.build_value()),
            Numerical::Mul(value) => Update::with_operator(UpdateOperator::Mul, field, value.build_value()),
        }
    }
}

/// Setters of the updates of a field itself.
pub trait FieldUpdate<V: BuildValue> {
    /// Renames the field.
    fn rename(&mut self, new_name: String);

    /// Sets the field.
    fn set(&mut self, value: V);

    /// Sets the field when the document is inserted.
    fn set_on_insert(&mut self, value: V);

    /// Removes the field.
    fn unset(&mut self);
}

/// Updates of a field itself.
#[derive(Clone, Debug)]
pub enum Field<V: BuildValue> {
    Rename(String),
    SetValue(V),
    SetOnInsert(V),
    Unset,
}

impl<V: BuildValue> BuildInnerUpdate for Field<V> {
    open spec fn inner_update_of(self, field: Seq<char>) -> UpdateV {
        match self {
            Field::Rename(n) => operator_update(UpdateOperator::Rename, field, BsonV::String(n@)),
            Field::SetValue(v) => operator_update(UpdateOperator::SetValue, field, v.value_of()),
            Field::SetOnInsert(v) => operator_update(UpdateOperator::SetOnInsert, field, v.value_of()),
            Field::Unset => operator_update(UpdateOperator::Unset, field, BsonV::Boolean(true)),
        }
    }

    fn build_update(self, field: String) -> (r: Update) {
        match self {
            Field::Rename(value) => Update::with_operator(UpdateOperator::Rename, field, Value::new(Bson::String(value))),
            Field::SetValue(value) => Update::with_operator(UpdateOperator::SetValue, field, value.build_value()),
            Field::SetOnInsert(value) => Update::with_operator(UpdateOperator::SetOnInsert, field, value.build_value()),
            Field::Unset => Update::with_operator(UpdateOperator::Unset, field, Value::new(Bson::Boolean(true))),
        }
    }
}

/// Setters of the updates of array elements.
pub trait ElementUpdate<V: BuildValue> {
    /// Sets the elements selected by the operator.
    fn set(&mut self, value: V, operator: Operator);
}

/// Updates of array elements.
#[derive(Clone, Debug)]
pub enum Element<V: BuildValue> {
    SetValue(V),
}

impl<V: BuildValue> BuildInnerUpdate for Element<V> {
    open spec fn inner_update_of(self, field: Seq<char>) -> UpdateV {
        match self {
            Element::SetValue(v) => operator_update(UpdateOperator::SetValue, field, v.value_of()),
        }
    }

    fn build_update(self, field: String) -> (r: Update) {
        match self {
            Element::SetValue(value) => Update::with_operator(UpdateOperator::SetValue, field, value.build_value()),
        }
    }
}

/// Setters of the updates of arrays.
pub trait ArrayUpdate<V: BuildValue> {
    /// Adds the value unless it is present.
    fn add_to_set(&mut self, value: PushValue<V>, operator: Operator);

    /// Removes the first or the last element.
    fn pop(&mut self, option: PopOption, operator: Operator);

    /// Removes the elements matching the value.
    fn pull(&mut self, value: PullValue<V>, operator: Operator);

    /// Appends the value.
    fn push(&mut self, value: PushValue<V>, operator: Operator);

    /// Removes the elements equal to any of the values.
    fn pull_all(&mut self, value: V, operator: Operator);
}

/// Updates of arrays.
#[derive(Clone, Debug)]
pub enum Array<V: BuildValue> {
    AddToSet(PushValue<V>),
    Pop(PopOption),
    Pull(PullValue<V>),
    Push(PushValue<V>),
    PullAll(V),
}

impl<V: BuildValue> BuildInnerUpdate for Array<V> {
    open spec fn inner_update_of(self, field: Seq<char>) -> UpdateV {
        match self {
            Array::AddToSet(v) => operator_update(UpdateOperator::AddToSet, field, v.value_of()),
            Array::Pop(o) => operator_update(UpdateOperator::Pop, field, BsonV::I32(o.spec_as_number())),
            Array::Pull(v) => operator_update(UpdateOperator::Pull, field, v.value_of()),
            Array::Push(v) => operator_update(UpdateOperator::Push, field, v.value_of()),
            Array::PullAll(v) => operator_update(UpdateOperator::PullAll, field, v.value_of()),
        }
    }

    fn build_update(self, field: String) -> (r: Update) {
        match self {
            Array::AddToSet(value) => Update::with_operator(UpdateOperator::AddToSet, field, value.build_value()),
            Array::Pop(option) => Update::with_operator(UpdateOperator::Pop, field, option.as_number().build_value()),
            Array::Pull(value) => Update::with_operator(UpdateOperator::Pull, field, value.build_value()),
            Array::Push(value) => Update::with_operator(UpdateOperator::Push, field, value.build_value()),
            Array::PullAll(value) => Update::with_operator(UpdateOperator::PullAll, field, value.build_value()),
        }
    }
}

// -------------------------------------------------------------------------------------------------
// Entries of the members

/// The update of a member of type `f64`.
#[derive(Clone, Debug)]
pub enum F64Entry {
    Value(Double),
    Numerical(Numerical<Double>),
    Field(Field<Double>),
    Empty,
}

impl BuildInnerUpdate for F64Entry {
    open spec fn inner_update_of(self, field: Seq<char>) -> UpdateV {
        match self {
            F64Entry::Value(v) => field_update(field, BsonV::FloatingPoint(v)),
            F64Entry::Numerical(n) => n.inner_update_of(field),
            F64Entry::Field(f) => f.inner_update_of(field),
            F64Entry::Empty => empty_update(),
        }
    }

    fn build_update(self, field: String) -> (r: Update) {
        match self {
            F64Entry::Value(value) => Update::with_field(field, Bson::FloatingPoint(value)),
            F64Entry::Numerical(value) => value.build_update(field),
            F64Entry::Field(value) => value.build_update(field),
            F64Entry::Empty => Update::empty(),
        }
    }
}

impl Default for F64Entry {
    fn default() -> (r: Self)
        ensures
            r is Empty,
    {
        F64Entry::Empty
    }
}

/// The update of a member of type `String`.
#[derive(Clone, Debug)]
pub enum StringEntry {
    Value(String),
    Field(Field<String>),
    Empty,
}

impl BuildInnerUpdate for StringEntry {
    open spec fn inner_update_of(self, field: Seq<char>) -> UpdateV {
        match self {
            StringEntry::Value(v) => field_update(field, BsonV::String(v@)),
            StringEntry::Field(f) => f.inner_update_of(field),
            StringEntry::Empty => empty_update(),
        }
    }

    fn build_update(self, field: String) -> (r: Update) {
        match self {
            StringEntry::Value(value) => Update::with_field(field, Bson::String(value)),
            StringEntry::Field(value) => value.build_update(field),
            StringEntry::Empty => Update::empty(),
        }
    }
}

impl Default for StringEntry {
    fn default() -> (r: Self)
        ensures
            r is Empty,
    {
        StringEntry::Empty
    }
}

/// The update of a member of type `ObjectId`.
#[derive(Clone, Debug)]
pub enum ObjectIdEntry {
    Value(ObjectId),
    Field(Field<ObjectId>),
    Empty,
}

impl BuildInnerUpdate for ObjectIdEntry {
    open spec fn inner_update_of(self, field: Seq<char>) -> UpdateV {
        match self {
            ObjectIdEntry::Value(v) => field_update(field, BsonV::ObjectId(v)),
            ObjectIdEntry::Field(f) => f.inner_update_of(field),
            ObjectIdEntry::Empty => empty_update(),
        }
    }

    fn build_update(self, field: String) -> (r: Update) {
        match self {
            ObjectIdEntry::Value(value) => Update::with_field(field, Bson::ObjectId(value)),
            ObjectIdEntry::Field(value) => value.build_update(field),
            ObjectIdEntry::Empty => Update::empty(),
        }
    }
}

impl Default for ObjectIdEntry {
    fn default() -> (r: Self)
        ensures
            r is Empty,
    {
        ObjectIdEntry::Empty
    }
}

impl FieldUpdate<ObjectId> for ObjectIdEntry {
    fn rename(&mut self, new_name: String)
        ensures
            *final(self) == ObjectIdEntry::Field(Field::Rename(new_name)),
    {
        *self = ObjectIdEntry::Field(Field::Rename(new_name));
    }

    fn set(&mut self, value: ObjectId)
        ensures
            *final(self) == ObjectIdEntry::Field(Field::SetValue(value)),
    {
        *self = ObjectIdEntry::Field(Field::SetValue(value));
    }

    fn set_on_insert(&mut self, value: ObjectId)
        ensures
            *final(self) == ObjectIdEntry::Field(Field::SetOnInsert(value)),
    {
        *self = ObjectIdEntry::Field(Field::SetOnInsert(value));
    }

    fn unset(&mut self)
        ensures
            *final(self) == ObjectIdEntry::Field(Field::<ObjectId>::Unset),
    {
        *self = ObjectIdEntry::Field(Field::Unset);
    }
}

/// The update of a member of type `bool`.
#[derive(Clone, Debug)]
pub enum BooleanEntry {
    Value(bool),
    Field(Field<bool>),
    Empty,
}

impl BuildInnerUpdate for BooleanEntry {
    open spec fn inner_update_of(self, field: Seq<char>) -> UpdateV {
        match self {
            BooleanEntry::Value(v) => field_update(field, BsonV::Boolean(v)),
            BooleanEntry::Field(f) => f.inner_update_of(field),
            BooleanEntry::Empty => empty_update(),
        }
    }

    fn build_update(self, field: String) -> (r: Update) {
        match self {
            BooleanEntry::Value(value) => Update::with_field(field, Bson::Boolean(value)),
            BooleanEntry::Field(value) => value.build_update(field),
            BooleanEntry::Empty => Update::empty(),
        }
    }
}

impl Default for BooleanEntry {
    fn default() -> (r: Self)
        ensures
            r is Empty,
    {
        BooleanEntry::Empty
    }
}

impl FieldUpdate<bool> for BooleanEntry {
    fn rename(&mut self, new_name: String)
        ensures
            *final(self) == BooleanEntry::Field(Field::Rename(new_name)),
    {
        *self = BooleanEntry::Field(Field::Rename(new_name));
    }

    fn set(&mut self, value: bool)
        ensures
            *final(self) == BooleanEntry::Field(Field::SetValue(value)),
    {
        *self = BooleanEntry::Field(Field::SetValue(value));
    }

    fn set_on_insert(&mut self, value: bool)
        ensures
            *final(self) == BooleanEntry::Field(Field::SetOnInsert(value)),
    {
        *self = BooleanEntry::Field(Field::SetOnInsert(value));
    }

    fn unset(&mut self)
        ensures
            *final(self) == BooleanEntry::Field(Field::<bool>::Unset),
    {
        *self = BooleanEntry::Field(Field::Unset);
    }
}

/// The update of a member of type `Date`.
#[derive(Clone, Debug)]
pub enum DateEntry {
    Value(Date),
    CurrentDate,
    Field(Field<Date>),
    Empty,
}

impl BuildInnerUpdate for DateEntry {
    open spec fn inner_update_of(self, field: Seq<char>) -> UpdateV {
        match self {
            DateEntry::Value(v) => field_update(field, BsonV::UtcDatetime(v)),
            DateEntry::CurrentDate => operator_update(UpdateOperator::CurrentDate, field, BsonV::String("date"@)),
            DateEntry::Field(f) => f.inner_update_of(field),
            DateEntry::Empty => empty_update(),
        }
    }

    fn build_update(self, field: String) -> (r: Update) {
        proof {
            reveal_strlit("date");
        }
        match self {
            DateEntry::Value(value) => Update::with_field(field, Bson::UtcDatetime(value)),
            DateEntry::CurrentDate => Update::with_operator(UpdateOperator::CurrentDate, field, Value::new(Bson::String(copy_string("date")))),
            DateEntry::Field(value) => value.build_update(field),
            DateEntry::Empty => Update::empty(),
        }
    }
}

impl Default for DateEntry {
    fn default() -> (r: Self)
        ensures
            r is Empty,
    {
        DateEntry::Empty
    }
}

impl FieldUpdate<Date> for DateEntry {
    fn rename(&mut self, new_name: String)
        ensures
            *final(self) == DateEntry::Field(Field::Rename(new_name)),
    {
        *self = DateEntry::Field(Field::Rename(new_name));
    }

    fn set(&mut self, value: Date)
        ensures
            *final(self) == DateEntry::Field(Field::SetValue(value)),
    {
        *self = DateEntry::Field(Field::SetValue(value));
    }

    fn set_on_insert(&mut self, value: Date)
        ensures
            *final(self) == DateEntry::Field(Field::SetOnInsert(value)),
    {
        *self = DateEntry::Field(Field::SetOnInsert(value));
    }

    fn unset(&mut self)
        ensures
            *final(self) == DateEntry::Field(Field::<Date>::Unset),
    {
        *self = DateEntry::Field(Field::Unset);
    }
}

/// The update of a member of type `i32`.
#[derive(Clone, Debug)]
pub enum I32Entry {
    Value(i32),
    Numerical(Numerical<i32>),
    Field(Field<i32>),
    Empty,
}

impl BuildInnerUpdate for I32Entry {
    open spec fn inner_update_of(self, field: Seq<char>) -> UpdateV {
        match self {
            I32Entry::Value(v) => field_update(field, BsonV::I32(v)),
            I32Entry::Numerical(n) => n.inner_update_of(field),
            I32Entry::Field(f) => f.inner_update_of(field),
            I32Entry::Empty => empty_update(),
        }
    }

    fn build_update(self, field: String) -> (r: Update) {
        match self {
            I32Entry::Value(value) => Update::with_field(field, Bson::I32(value)),
            I32Entry::Numerical(value) => value.build_update(field),
            I32Entry::Field(value) => value.build_update(field),
            I32Entry::Empty => Update::empty(),
        }
    }
}

impl Default for I32Entry {
    fn default() -> (r: Self)
        ensures
            r is Empty,
    {
        I32Entry::Empty
    }
}

impl NumericalUpdate<i32> for I32Entry {
    fn inc(&mut self, value: i32)
        ensures
            *final(self) == I32Entry::Numerical(Numerical::Inc(value)),
    {
        *self = I32Entry::Numerical(Numerical::Inc(value));
    }

    fn min(&mut self, value: i32)
        ensures
            *final(self) == I32Entry::Numerical(Numerical::Min(value)),
    {
        *self = I32Entry::Numerical(Numerical::Min(value));
    }

    fn max(&mut self, value: i32)
        ensures
            *final(self) == I32Entry::Numerical(Numerical::Max(value)),
    {
        *self = I32Entry::Numerical(Numerical::Max(value));
    }

    fn mul(&mut self, value: i32)
        ensures
            *final(self) == I32Entry::Numerical(Numerical::Mul(value)),
    {
        *self = I32Entry::Numerical(Numerical::Mul(value));
    }
}

/// The update of a member of type `TimeStamp`.
#[derive(Clone, Debug)]
pub enum TimeStampEntry {
    Value(TimeStamp),
    CurrentDate,
    Field(Field<TimeStamp>),
    Empty,
}

impl BuildInnerUpdate for TimeStampEntry {
    open spec fn inner_update_of(self, field: Seq<char>) -> UpdateV {
        match self {
            TimeStampEntry::Value(v) => field_update(field, BsonV::TimeStamp(v.0)),
            TimeStampEntry::CurrentDate => operator_update(UpdateOperator::CurrentDate, field, BsonV::String("timestamp"@)),
            TimeStampEntry::Field(f) => f.inner_update_of(field),
            TimeStampEntry::Empty => empty_update(),
        }
    }

    fn build_update(self, field: String) -> (r: Update) {
        proof {
            reveal_strlit("timestamp");
        }
        match self {
            TimeStampEntry::Value(value) => Update::with_field(field, Bson::TimeStamp(value.0)),
            TimeStampEntry::CurrentDate => Update::with_operator(UpdateOperator::CurrentDate, field, Value::new(Bson::String(copy_string("timestamp")))),
            TimeStampEntry::Field(value) => value.build_update(field),
            TimeStampEntry::Empty => Update::empty(),
        }
    }
}

impl Default for TimeStampEntry {
    fn default() -> (r: Self)
        ensures
            r is Empty,
    {
        TimeStampEntry::Empty
    }
}

/// The update of a member of type `i64`.
#[derive(Clone, Debug)]
pub enum I64Entry {
    Value(i64),
    Numerical(Numerical<i64>),
    Field(Field<i64>),
    Empty,
}

impl BuildInnerUpdate for I64Entry {
    open spec fn inner_update_of(self, field: Seq<char>) -> UpdateV {
        match self {
            I64Entry::Value(v) => field_update(field, BsonV::I64(v)),
            I64Entry::Numerical(n) => n.inner_update_of(field),
            I64Entry::Field(f) => f.inner_update_of(field),
            I64Entry::Empty => empty_update(),
        }
    }

    fn build_update(self, field: String) -> (r: Update) {
        match self {
            I64Entry::Value(value) => Update::with_field(field, Bson::I64(value)),
            I64Entry::Numerical(value) => value.build_update(field),
            I64Entry::Field(value) => value.build_update(field),
            I64Entry::Empty => Update::empty(),
        }
    }
}

impl Default for I64Entry {
    fn default() -> (r: Self)
        ensures
            r is Empty,
    {
        I64Entry::Empty
    }
}

/// The update of a member of an enum type: enums are stored as strings.
#[derive(Clone, Debug)]
pub enum EnumEntry<E: HuusKey> {
    Value(E),
    Field(Field<String>),
    Empty,
}

impl<E: HuusKey> FieldUpdate<String> for EnumEntry<E> {
    fn rename(&mut self, new_name: String)
        ensures
            *final(self) == EnumEntry::<E>::Field(Field::Rename(new_name)),
    {
        *self = EnumEntry::Field(Field::Rename(new_name));
    }

    fn set(&mut self, value: String)
        ensures
            *final(self) == EnumEntry::<E>::Field(Field::SetValue(value)),
    {
        *self = EnumEntry::Field(Field::SetValue(value));
    }

    fn set_on_insert(&mut self, value: String)
        ensures
            *final(self) == EnumEntry::<E>::Field(Field::SetOnInsert(value)),
    {
        *self = EnumEntry::Field(Field::SetOnInsert(value));
    }

    fn unset(&mut self)
        ensures
            *final(self) == EnumEntry::<E>::Field(Field::Unset),
    {
        *self = EnumEntry::Field(Field::Unset);
    }
}

impl<E: HuusKey> BuildInnerUpdate for EnumEntry<E> {
    open spec fn inner_update_of(self, field: Seq<char>) -> UpdateV {
        match self {
            EnumEntry::Value(e) => field_update(field, BsonV::String(e.key_text())),
            EnumEntry::Field(f) => f.inner_update_of(field),
            EnumEntry::Empty => empty_update(),
        }
    }

    fn build_update(self, field: String) -> (r: Update) {
        match self {
            EnumEntry::Value(value) => Update::with_field(
                field,
                Bson::String(copy_string(value.to_str())),
            ),
            EnumEntry::Field(value) => value.build_update(field),
            EnumEntry::Empty => Update::empty(),
        }
    }
}

impl<E: HuusKey> Default for EnumEntry<E> {
    fn default() -> (r: Self)
        ensures
            r is Empty,
    {
        EnumEntry::Empty
    }
}

/// The update of a member holding an embedded document.
#[derive(Clone, Debug)]
pub enum ObjectEntry<U: BuildInnerUpdate, V: BuildValue> {
    Value(V),
    Dot(U),
    Field(Field<V>),
    Empty,
}

impl<U: BuildInnerUpdate, V: BuildValue> ObjectUpdate<U, V> for ObjectEntry<U, V> {
    fn value(&mut self, value: V)
        ensures
            *final(self) == ObjectEntry::<U, V>::Value(value),
    {
        *self = ObjectEntry::Value(value);
    }

    fn dot(&mut self, update: U)
        ensures
            *final(self) == ObjectEntry::<U, V>::Dot(update),
    {
        *self = ObjectEntry::Dot(update);
    }
}

impl<U: BuildInnerUpdate, V: BuildValue> FieldUpdate<V> for ObjectEntry<U, V> {
    fn rename(&mut self, new_name: String)
        ensures
            *final(self) == ObjectEntry::<U, V>::Field(Field::Rename(new_name)),
    {
        *self = ObjectEntry::Field(Field::Rename(new_name));
    }

    fn set(&mut self, value: V)
        ensures
            *final(self) == ObjectEntry::<U, V>::Field(Field::SetValue(value)),
    {
        *self = ObjectEntry::Field(Field::SetValue(value));
    }

    fn set_on_insert(&mut self, value: V)
        ensures
            *final(self) == ObjectEntry::<U, V>::Field(Field::SetOnInsert(value)),
    {
        *self = ObjectEntry::Field(Field::SetOnInsert(value));
    }

    fn unset(&mut self)
        ensures
            *final(self) == ObjectEntry::<U, V>::Field(Field::Unset),
    {
        *self = ObjectEntry::Field(Field::Unset);
    }
}

impl<U: BuildInnerUpdate, V: BuildValue> BuildInnerUpdate for ObjectEntry<U, V> {
    open spec fn inner_update_of(self, field: Seq<char>) -> UpdateV {
        match self {
            ObjectEntry::Value(v) => field_update(field, v.value_of()),
            ObjectEntry::Dot(u) => u.inner_update_of(field),
            ObjectEntry::Field(f) => f.inner_update_of(field),
            ObjectEntry::Empty => empty_update(),
        }
    }

    fn build_update(self, field: String) -> (r: Update) {
        match self {
            ObjectEntry::Value(value) => Update::with_field(field, value.build_value().into_bson()),
            ObjectEntry::Dot(update) => update.build_update(field),
            ObjectEntry::Field(update) => update.build_update(field),
            ObjectEntry::Empty => Update::empty(),
        }
    }
}

impl<U: BuildInnerUpdate, V: BuildValue> Default for ObjectEntry<U, V> {
    fn default() -> (r: Self)
        ensures
            r is Empty,
    {
        ObjectEntry::Empty
    }
}

/// The decimal digit of a number below ten.
pub open spec fn digit_char(d: nat) -> char {
    if d == 0 {
        '0'
    } else if d == 1 {
        '1'
    } else if d == 2 {
        '2'
    } else if d == 3 {
        '3'
    } else if d == 4 {
        '4'
    } else if d == 5 {
        '5'
    } else if d == 6 {
        '6'
    } else if d == 7 {
        '7'
    } else if d == 8 {
        '8'
    } else {
        '9'
    }
}

/// The decimal text of a number.
pub open spec fn decimal(n: nat) -> Seq<char>
    decreases n,
{
    if n < 10 {
        seq![digit_char(n)]
    } else {
        decimal(n / 10).push(digit_char(n % 10))
    }
}

/// Returns the decimal text of a number.
pub fn decimal_string(n: usize) -> (r: String)
    ensures
        r@ == decimal(n as nat),
    decreases n,
{
    let d = n % 10;
    let c = if d == 0 {
        '0'
    } else if d == 1 {
        '1'
    } else if d == 2 {
        '2'
    } else if d == 3 {
        '3'
    } else if d == 4 {
        '4'
    } else if d == 5 {
        '5'
    } else if d == 6 {
        '6'
    } else if d == 7 {
        '7'
    } else if d == 8 {
        '8'
    } else {
        '9'
    };
    if n < 10 {
        let mut r = String::new();
        crate::text::push_char(&mut r, c);
        assert(r@ =~= seq![digit_char(n as nat)]);
        r
    } else {
        let mut r = decimal_string(n / 10);
        crate::text::push_char(&mut r, c);
        r
    }
}

/// The update of an array member: an array operator (on the array or on the element selected by
/// the operator), a numerical update, an update of the element at an index or of the element
/// matched by the filter.
#[derive(Clone, Debug)]
pub enum ArrayEntry<U: BuildInnerUpdate, V: BuildValue> {
    Array(Array<V>, Operator),
    Numerical(Numerical<V>),
    Element(Element<V>, Operator),
    Indexed(usize, U),
    Selected(U),
    Empty,
}

impl<U: BuildInnerUpdate, V: BuildValue> ArrayUpdate<V> for ArrayEntry<U, V> {
    fn add_to_set(&mut self, value: PushValue<V>, operator: Operator)
        ensures
            *final(self) == ArrayEntry::<U, V>::Array(Array::AddToSet(value), operator),
    {
        *self = ArrayEntry::Array(Array::AddToSet(value), operator);
    }

    fn pop(&mut self, option: PopOption, operator: Operator)
        ensures
            *final(self) == ArrayEntry::<U, V>::Array(Array::Pop(option), operator),
    {
        *self = ArrayEntry::Array(Array::Pop(option), operator);
    }

    fn pull(&mut self, value: PullValue<V>, operator: Operator)
        ensures
            *final(self) == ArrayEntry::<U, V>::Array(Array::Pull(value), operator),
    {
        *self = ArrayEntry::Array(Array::Pull(value), operator);
    }

    fn push(&mut self, value: PushValue<V>, operator: Operator)
        ensures
            *final(self) == ArrayEntry::<U, V>::Array(Array::Push(value), operator),
    {
        *self = ArrayEntry::Array(Array::Push(value), operator);
    }

    fn pull_all(&mut self, value: V, operator: Operator)
        ensures
            *final(self) == ArrayEntry::<U, V>::Array(Array::PullAll(value), operator),
    {
        *self = ArrayEntry::Array(Array::PullAll(value), operator);
    }
}

impl<U: BuildInnerUpdate, V: BuildValue> ElementUpdate<V> for ArrayEntry<U, V> {
    fn set(&mut self, value: V, operator: Operator)
        ensures
            *final(self) == ArrayEntry::<U, V>::Element(Element::SetValue(value), operator),
    {
        *self = ArrayEntry::Element(Element::SetValue(value), operator);
    }
}

impl<U: BuildInnerUpdate, V: BuildValue> BuildInnerUpdate for ArrayEntry<U, V> {
    open spec fn inner_update_of(self, field: Seq<char>) -> UpdateV {
        match self {
            ArrayEntry::Array(a, op) => a.inner_update_of(field + op.spec_to_string()),
            ArrayEntry::Numerical(n) => n.inner_update_of(field),
            ArrayEntry::Element(e, op) => e.inner_update_of(field + op.spec_to_string()),
            ArrayEntry::Indexed(i, u) => u.inner_update_of(field + "."@ + decimal(i as nat)),
            ArrayEntry::Selected(u) => u.inner_update_of(field + ".$"@),
            ArrayEntry::Empty => empty_update(),
        }
    }

    fn build_update(self, field: String) -> (r: Update) {
        proof {
            reveal_strlit(".");
            reveal_strlit(".$");
        }
        match self {
            ArrayEntry::Array(operation, operator) => operation.build_update(
                concat(field.as_str(), operator.to_string()),
            ),
            ArrayEntry::Numerical(operation) => operation.build_update(field),
            ArrayEntry::Element(operation, operator) => operation.build_update(
                concat(field.as_str(), operator.to_string()),
            ),
            ArrayEntry::Indexed(index, update) => {
                let with_dot = concat(field.as_str(), ".");
                let path = concat(with_dot.as_str(), decimal_string(index).as_str());
                update.build_update(path)
            },
            ArrayEntry::Selected(update) => update.build_update(concat(field.as_str(), ".$")),
            ArrayEntry::Empty => Update::empty(),
        }
    }
}

impl<U: BuildInnerUpdate, V: BuildValue> Default for ArrayEntry<U, V> {
    fn default() -> (r: Self)
        ensures
            r is Empty,
    {
        ArrayEntry::Empty
    }
}

/// The update of a member holding a BSON document.
#[derive(Clone, Debug)]
pub enum BsonEntry {
    Value(Document),
    Field(Field<Document>),
    Empty,
}

impl BuildInnerUpdate for BsonEntry {
    open spec fn inner_update_of(self, field: Seq<char>) -> UpdateV {
        match self {
            BsonEntry::Value(d) => field_update(field, BsonV::Document(d@)),
            BsonEntry::Field(f) => f.inner_update_of(field),
            BsonEntry::Empty => empty_update(),
        }
    }

    fn build_update(self, field: String) -> (r: Update) {
        match self {
            BsonEntry::Value(value) => {
                proof {
                    lemma_document_view(value);
                }
                Update::with_field(field, Bson::Document(value))
            },
            BsonEntry::Field(value) => value.build_update(field),
            BsonEntry::Empty => Update::empty(),
        }
    }
}

impl Default for BsonEntry {
    fn default() -> (r: Self)
        ensures
            r is Empty,
    {
        BsonEntry::Empty
    }
}

// -------------------------------------------------------------------------------------------------
// Laws of updates

/// An update setting a field directly writes just that field.
pub proof fn law_field_update_doc(field: Seq<char>, value: BsonV)
    ensures
        update_doc(field_update(field, value)) == seq![(field, value)],
{
    reveal_with_fuel(operators_doc, 15);
}

/// An update made of one instruction writes the operator's document with just that field.
pub proof fn law_operator_update_doc(op: UpdateOperator, field: Seq<char>, value: BsonV)
    ensures
        update_doc(operator_update(op, field, value)) == seq![
            (operator_name(op.index()), BsonV::Document(seq![(field, value)])),
        ],
{
    reveal_with_fuel(operators_doc, 15);
    reveal_with_fuel(path_text, 2);
    reveal_with_fuel(instructions_doc, 2);
    let u = operator_update(op, field, value);
    let k = op.index();
    assert(path_text(seq![field]) == field);
    assert(instructions_doc(seq![(seq![field], value)]) =~= seq![(field, value)]) by {
        reveal(Seq::filter);
        assert(seq![(seq![field], value)].drop_first() =~= Seq::<InstructionV>::empty());
    }
    assert forall|j: int| 0 <= j <= 14 && j <= k implies operators_doc(DocV::empty(), u.lists, j)
        =~= DocV::empty() by {
        assert forall|m: int| 0 <= m < k implies u.lists[m].len() == 0 by {}
        lemma_operators_doc_empty_prefix(u.lists, j, k);
    }
    assert(operators_doc(DocV::empty(), u.lists, k + 1) =~= seq![
        (operator_name(k), BsonV::Document(seq![(field, value)])),
    ]) by {
        reveal(Seq::filter);
    }
    lemma_operators_doc_unchanged(DocV::empty(), u.lists, k + 1, 14);
}

proof fn lemma_operators_doc_empty_prefix(lists: Seq<Seq<InstructionV>>, j: int, k: int)
    requires
        0 <= j <= k,
        forall|m: int| 0 <= m < k ==> lists[m].len() == 0,
    ensures
        operators_doc(DocV::empty(), lists, j) == DocV::empty(),
    decreases j,
{
    if j > 0 {
        lemma_operators_doc_empty_prefix(lists, j - 1, k);
    }
}

proof fn lemma_operators_doc_unchanged(doc: DocV, lists: Seq<Seq<InstructionV>>, j: int, n: int)
    requires
        0 <= j <= n,
        forall|m: int| j <= m < n ==> lists[m].len() == 0,
    ensures
        operators_doc(doc, lists, n) == operators_doc(doc, lists, j),
    decreases n - j,
{
    if j < n {
        lemma_operators_doc_unchanged(doc, lists, j, n - 1);
    }
}

/// Adding the update that does nothing leaves an update as it was.
pub proof fn law_incorporate_empty(u: UpdateV)
    requires
        u.lists.len() == operator_count(),
    ensures
        incorporated(u, empty_update()) == u,
{
    assert(incorporated(u, empty_update()).lists =~= u.lists) by {
        assert forall|k: int| 0 <= k < 14 implies incorporated(u, empty_update()).lists[k] == u.lists[k] by {
            assert(u.lists[k] + Seq::<InstructionV>::empty() =~= u.lists[k]);
        }
    }
}

/// Adding an update whose directly set fields have distinct keys to the update that does nothing
/// gives that update.
pub proof fn law_empty_incorporate(u: UpdateV)
    requires
        u.lists.len() == operator_count(),
        keys_unique(u.doc),
    ensures
        incorporated(empty_update(), u) == u,
{
    crate::document::law_insert_all_into_empty(u.doc);
    assert(incorporated(empty_update(), u).lists =~= u.lists) by {
        assert forall|k: int| 0 <= k < 14 implies incorporated(empty_update(), u).lists[k] == u.lists[k] by {
            assert(Seq::<InstructionV>::empty() + u.lists[k] =~= u.lists[k]);
        }
    }
}

/// The instructions of updates added one after the other keep their order.
pub proof fn law_incorporate_associative(a: UpdateV, b: UpdateV, c: UpdateV)
    requires
        a.lists.len() == operator_count(),
        b.lists.len() == operator_count(),
        c.lists.len() == operator_count(),
    ensures
        incorporated(incorporated(a, b), c).lists == incorporated(a, incorporated(b, c)).lists,
{
    assert(incorporated(incorporated(a, b), c).lists =~= incorporated(a, incorporated(b, c)).lists) by {
        assert forall|k: int| 0 <= k < 14 implies incorporated(incorporated(a, b), c).lists[k]
            == incorporated(a, incorporated(b, c)).lists[k] by {
            assert(a.lists[k] + b.lists[k] + c.lists[k] =~= a.lists[k] + (b.lists[k] + c.lists[k]));
        }
    }
}

}
