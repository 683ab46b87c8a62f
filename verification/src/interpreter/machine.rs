use super::assembly::Assembly;
use super::assembly_name::AssemblyName;
use super::data_reader::{spec_u16_le, spec_u32_le, spec_u64_le};
use super::fault::Fault;
use super::il_type::{ILPtr, ILRefType, ILType, ILTypeView, ILValType};
use super::object::Object;
use super::metadata::md_token::{spec_rid, MDToken};
use super::op_codes::{OpCode, OpCode2};
use super::resolve::{
    extends_chain, field_list, get_method_index, resolve_type_def_or_ref, row_index,
    spec_extends_chain, spec_field_list, spec_method_place, spec_resolve_type, zero_of, Chain,
    Found, Stop, MAX_CHAIN, MAX_TOKEN_HOPS,
};
use super::signature::CallingConventionSig;
use super::text::{push_decimal, spec_decimal};
use crate::hash_vec::HashVec;
use vstd::prelude::*;
use vstd::string::StringExecFns;

verus! {

/// The text of a value, or the bits of a floating-point number whose text the
/// host makes.
#[derive(Debug)]
pub enum Rendered {
    Text(String),
    /// The bits of a single-precision number.
    Single(u32),
    /// The bits of a double-precision number.
    Double(u64),
}

/// What a `Rendered` holds, as a mathematical value.
pub enum RenderedView {
    Text(Seq<char>),
    Single(u32),
    Double(u64),
}

impl Rendered {
    pub open spec fn view(&self) -> RenderedView {
        match self {
            Rendered::Text(t) => RenderedView::Text(t@),
            Rendered::Single(b) => RenderedView::Single(*b),
            Rendered::Double(b) => RenderedView::Double(*b),
        }
    }
}

/// What a step of the interpreter asks of the host.
pub enum Outcome {
    /// Nothing: the next step can be taken.
    Continue,
    /// The last method has returned.
    Finished,
    /// A line is to be written to the standard output.
    WriteLine(Rendered),
    /// The assembly of this name is to be loaded and handed to `add_assembly`. The
    /// step has changed nothing, and is taken again afterwards.
    LoadAssembly(AssemblyName),
    /// Two floating-point numbers are to be added, or subtracted, and the result
    /// handed to `push_float`.
    FloatBinary { subtract: bool, wide: bool, lhs: u64, rhs: u64 },
    /// The program has stopped with a fault.
    Fault(Fault),
}

/// One call of a method: where it executes, and its arguments and local variables.
pub struct Frame {
    /// The place of the assembly that holds the method.
    pub assembly_index: usize,
    /// The place of the method among the methods of the assembly.
    pub method_index: usize,
    /// Where the next instruction lies in the image of the assembly.
    pub rip: usize,
    pub params: Vec<ILType>,
    pub locals: Vec<ILType>,
    /// How many values the operand stack held when the method was entered.
    pub stack_base: usize,
    /// How many values the method may keep on the operand stack.
    pub max_stack: usize,
    /// The number of the call.
    pub stack_id: usize,
}

/// Where the interpreter executes: the current assembly, the calls that lead
/// there, and the number of the latest call.
pub struct Context {
    pub assembly_index: usize,
    /// For each call, the place of the assembly and the token that was called.
    pub call_stack: Vec<(usize, u32)>,
    pub stack_id: usize,
}

impl Context {
    pub fn new(assembly_index: usize) -> (ctx: Context)
        ensures
            ctx.assembly_index == assembly_index,
            ctx.call_stack@.len() == 0,
            ctx.stack_id == 0,
    {
        Context { assembly_index, call_stack: Vec::new(), stack_id: 0 }
    }

    /// A context at the same assembly and call number, with no calls of its own.
    pub fn make_temp(&self) -> (ctx: Context)
        ensures
            ctx.assembly_index == self.assembly_index,
            ctx.call_stack@.len() == 0,
            ctx.stack_id == self.stack_id,
    {
        Context {
            assembly_index: self.assembly_index,
            call_stack: Vec::new(),
            stack_id: self.stack_id,
        }
    }
}

/// The interpreter: the loaded assemblies, the operand stack, the heaps of
/// objects and strings, the static fields of each assembly, and the calls in
/// progress.
pub struct Interpreter {
    /// The loaded assemblies by name; the first is the one that was started.
    assemblies: HashVec<String, Assembly>,
    stack: Vec<ILType>,
    objects: Vec<Object>,
    strings: Vec<String>,
    /// For each assembly, the values of its static fields by field token.
    static_fields: Vec<HashVec<u32, ILType>>,
    frames: Vec<Frame>,
    ctx: Context,
}

impl Interpreter {
    /// The loaded assemblies, by their names.
    pub closed spec fn spec_registry(&self) -> HashVec<String, Assembly> {
        self.assemblies
    }

    pub closed spec fn spec_assemblies(&self) -> Seq<Assembly> {
        self.assemblies.spec_values()
    }

    pub closed spec fn spec_assembly_index(&self, name: Seq<char>) -> Option<usize> {
        self.assemblies.spec_index_of(name)
    }

    pub closed spec fn spec_stack(&self) -> Seq<ILType> {
        self.stack@
    }

    pub closed spec fn spec_objects(&self) -> Seq<Object> {
        self.objects@
    }

    pub closed spec fn spec_strings(&self) -> Seq<String> {
        self.strings@
    }

    pub closed spec fn spec_statics(&self) -> Seq<HashVec<u32, ILType>> {
        self.static_fields@
    }

    pub closed spec fn spec_frames(&self) -> Seq<Frame> {
        self.frames@
    }

    pub closed spec fn spec_ctx(&self) -> Context {
        self.ctx
    }

    /// The call that executes.
    pub open spec fn spec_top(&self) -> Frame {
        self.spec_frames()[self.spec_frames().len() - 1]
    }

    /// The operand stack holds no fewer values than the executing method found
    /// there, and no more than the method may keep beyond those; and no call
    /// found fewer values than the call before it.
    pub open spec fn spec_depth_ok(&self) -> bool {
        &&& self.spec_frames().len() > 0 ==> self.spec_top().stack_base
            <= self.spec_stack().len() <= self.spec_top().stack_base + self.spec_top().max_stack
        &&& forall|i: int, j: int|
            0 <= i <= j < self.spec_frames().len() ==> self.spec_frames()[i].stack_base
                <= self.spec_frames()[j].stack_base
    }

    /// Everything but the operand stack is as it was.
    pub open spec fn spec_rest_same(&self, before: &Interpreter) -> bool {
        &&& self.spec_registry() == before.spec_registry()
        &&& self.spec_assemblies() == before.spec_assemblies()
        &&& forall|name: Seq<char>|
            self.spec_assembly_index(name) == before.spec_assembly_index(name)
        &&& self.spec_objects() == before.spec_objects()
        &&& self.spec_strings() == before.spec_strings()
        &&& self.spec_statics() == before.spec_statics()
        &&& self.spec_frames() == before.spec_frames()
        &&& self.spec_ctx() == before.spec_ctx()
    }

    /// The assemblies, the heaps and the static fields are as they were.
    pub open spec fn spec_heaps_same(&self, before: &Interpreter) -> bool {
        &&& self.spec_registry() == before.spec_registry()
        &&& self.spec_assemblies() == before.spec_assemblies()
        &&& forall|name: Seq<char>|
            self.spec_assembly_index(name) == before.spec_assembly_index(name)
        &&& self.spec_objects() == before.spec_objects()
        &&& self.spec_strings() == before.spec_strings()
        &&& self.spec_statics() == before.spec_statics()
        &&& self.spec_ctx() == before.spec_ctx()
    }

    /// Everything is as it was.
    pub open spec fn spec_same(&self, before: &Interpreter) -> bool {
        self.spec_rest_same(before) && self.spec_stack() == before.spec_stack()
    }

    /// The object heap has only grown, and no object has changed the type it was
    /// made of.
    pub open spec fn spec_heap_grown(&self, before: &Interpreter) -> bool {
        &&& self.spec_objects().len() >= before.spec_objects().len()
        &&& forall|i: int|
            0 <= i < before.spec_objects().len() ==> (#[trigger] self.spec_objects()[i]).spec_origin()
                == before.spec_objects()[i].spec_origin()
        &&& self.spec_strings().len() >= before.spec_strings().len()
        &&& forall|i: int|
            0 <= i < before.spec_strings().len() ==> #[trigger] self.spec_strings()[i]
                == before.spec_strings()[i]
    }

    /// True where `value` is no reference, or a reference to a place that is
    /// there, in a heap of `objects` objects and a heap of `strings` strings.
    pub open spec fn spec_value_ok(value: ILTypeView, objects: int, strings: int) -> bool {
        match value {
            ILTypeView::Ref(ILRefType::Object(i)) => i < objects,
            ILTypeView::Ref(ILRefType::String(i)) => i < strings,
            _ => true,
        }
    }

    /// True where every reference among `values` is to a place that is there.
    pub open spec fn spec_values_ok(values: Seq<ILType>, objects: int, strings: int) -> bool {
        forall|i: int|
            0 <= i < values.len() ==> Interpreter::spec_value_ok(
                (#[trigger] values[i]).view(),
                objects,
                strings,
            )
    }

    /// Every reference that is held on the operand stack, in a parameter or a
    /// local variable, in a field of an object, in a box or in a static field is
    /// to a place of the heaps that is there.
    pub open spec fn spec_refs_ok(&self) -> bool {
        let objects = self.spec_objects().len() as int;
        let strings = self.spec_strings().len() as int;
        &&& Interpreter::spec_values_ok(self.spec_stack(), objects, strings)
        &&& forall|f: int|
            0 <= f < self.spec_frames().len() ==> Interpreter::spec_values_ok(
                (#[trigger] self.spec_frames()[f]).params@,
                objects,
                strings,
            ) && Interpreter::spec_values_ok(self.spec_frames()[f].locals@, objects, strings)
        &&& forall|k: int|
            0 <= k < self.spec_objects().len() ==> Interpreter::spec_values_ok(
                (#[trigger] self.spec_objects()[k]).spec_field_values(),
                objects,
                strings,
            ) && (self.spec_objects()[k].spec_box_value() is Some ==> Interpreter::spec_value_ok(
                self.spec_objects()[k].spec_box_value()->Some_0.view(),
                objects,
                strings,
            ))
        &&& forall|a: int|
            0 <= a < self.spec_statics().len() ==> Interpreter::spec_values_ok(
                (#[trigger] self.spec_statics()[a]).spec_values(),
                objects,
                strings,
            )
    }

    /// References that are to places of the heaps are so in heaps that have grown.
    proof fn lemma_values_grow(values: Seq<ILType>, objects: int, strings: int, more: int, longer: int)
        requires
            Interpreter::spec_values_ok(values, objects, strings),
            objects <= more,
            strings <= longer,
        ensures
            Interpreter::spec_values_ok(values, more, longer),
    {
        assert forall|i: int| 0 <= i < values.len() implies Interpreter::spec_value_ok(
            (#[trigger] values[i]).view(),
            more,
            longer,
        ) by {
            assert(Interpreter::spec_value_ok(values[i].view(), objects, strings));
        }
    }

    /// The references are to places that are there where they were before, the
    /// heaps have not shrunk, the operand stack, the calls and the static fields
    /// are as they were, and every object holds what it held or holds references
    /// to places that are there.
    proof fn lemma_refs_from(&self, before: &Interpreter)
        requires
            before.spec_refs_ok(),
            self.spec_objects().len() >= before.spec_objects().len(),
            self.spec_strings().len() >= before.spec_strings().len(),
            self.spec_stack() == before.spec_stack(),
            self.spec_frames() == before.spec_frames(),
            self.spec_statics() == before.spec_statics(),
            forall|k: int|
                0 <= k < self.spec_objects().len() ==> (k < before.spec_objects().len() && (
                #[trigger] self.spec_objects()[k]).spec_field_values()
                    == before.spec_objects()[k].spec_field_values()
                    && self.spec_objects()[k].spec_box_value()
                    == before.spec_objects()[k].spec_box_value()) || (Interpreter::spec_values_ok(
                    self.spec_objects()[k].spec_field_values(),
                    self.spec_objects().len() as int,
                    self.spec_strings().len() as int,
                ) && (self.spec_objects()[k].spec_box_value() is Some
                    ==> Interpreter::spec_value_ok(
                    self.spec_objects()[k].spec_box_value()->Some_0.view(),
                    self.spec_objects().len() as int,
                    self.spec_strings().len() as int,
                ))),
        ensures
            self.spec_refs_ok(),
    {
        let o = before.spec_objects().len() as int;
        let t = before.spec_strings().len() as int;
        let more = self.spec_objects().len() as int;
        let longer = self.spec_strings().len() as int;
        Interpreter::lemma_values_grow(before.spec_stack(), o, t, more, longer);
        assert forall|f: int| 0 <= f < self.spec_frames().len() implies Interpreter::spec_values_ok(
            (#[trigger] self.spec_frames()[f]).params@,
            more,
            longer,
        ) && Interpreter::spec_values_ok(self.spec_frames()[f].locals@, more, longer) by {
            assert(before.spec_frames()[f] == self.spec_frames()[f]);
            Interpreter::lemma_values_grow(before.spec_frames()[f].params@, o, t, more, longer);
            Interpreter::lemma_values_grow(before.spec_frames()[f].locals@, o, t, more, longer);
        }
        assert forall|a: int| 0 <= a < self.spec_statics().len() implies Interpreter::spec_values_ok(
            (#[trigger] self.spec_statics()[a]).spec_values(),
            more,
            longer,
        ) by {
            assert(before.spec_statics()[a] == self.spec_statics()[a]);
            Interpreter::lemma_values_grow(before.spec_statics()[a].spec_values(), o, t, more, longer);
        }
        assert forall|k: int| 0 <= k < self.spec_objects().len() implies Interpreter::spec_values_ok(
            (#[trigger] self.spec_objects()[k]).spec_field_values(),
            more,
            longer,
        ) && (self.spec_objects()[k].spec_box_value() is Some ==> Interpreter::spec_value_ok(
            self.spec_objects()[k].spec_box_value()->Some_0.view(),
            more,
            longer,
        )) by {
            if k < before.spec_objects().len() && self.spec_objects()[k].spec_field_values()
                == before.spec_objects()[k].spec_field_values()
                && self.spec_objects()[k].spec_box_value()
                == before.spec_objects()[k].spec_box_value() {
                assert(Interpreter::spec_values_ok(
                    before.spec_objects()[k].spec_field_values(),
                    o,
                    t,
                ));
                Interpreter::lemma_values_grow(
                    before.spec_objects()[k].spec_field_values(),
                    o,
                    t,
                    more,
                    longer,
                );
            }
        }
    }

    /// Values that hold valid references still do when one of them is replaced
    /// by such a value, or such a value is put behind them.
    proof fn lemma_values_put(
        before: Seq<ILType>,
        after: Seq<ILType>,
        value: ILType,
        place: int,
        objects: int,
        strings: int,
    )
        requires
            Interpreter::spec_values_ok(before, objects, strings),
            Interpreter::spec_value_ok(value.view(), objects, strings),
            after == before.push(value) || (0 <= place < before.len() && after == before.update(
                place,
                value,
            )),
        ensures
            Interpreter::spec_values_ok(after, objects, strings),
    {
        assert forall|i: int| 0 <= i < after.len() implies Interpreter::spec_value_ok(
            (#[trigger] after[i]).view(),
            objects,
            strings,
        ) by {
            if after == before.push(value) {
                if i < before.len() {
                    assert(after[i] == before[i]);
                }
            } else if i != place {
                assert(after[i] == before[i]);
            }
        }
    }

    /// The references are to places that are there where they were before, the
    /// heaps and the static fields are as they were, and the operand stack and
    /// the calls hold references to places that are there.
    proof fn lemma_refs_calls(&self, before: &Interpreter)
        requires
            before.spec_refs_ok(),
            self.spec_objects() == before.spec_objects(),
            self.spec_strings() == before.spec_strings(),
            self.spec_statics() == before.spec_statics(),
            Interpreter::spec_values_ok(
                self.spec_stack(),
                self.spec_objects().len() as int,
                self.spec_strings().len() as int,
            ),
            forall|f: int|
                0 <= f < self.spec_frames().len() ==> Interpreter::spec_values_ok(
                    (#[trigger] self.spec_frames()[f]).params@,
                    self.spec_objects().len() as int,
                    self.spec_strings().len() as int,
                ) && Interpreter::spec_values_ok(
                    self.spec_frames()[f].locals@,
                    self.spec_objects().len() as int,
                    self.spec_strings().len() as int,
                ),
        ensures
            self.spec_refs_ok(),
    {
        assert forall|k: int| 0 <= k < self.spec_objects().len() implies Interpreter::spec_values_ok(
            (#[trigger] self.spec_objects()[k]).spec_field_values(),
            self.spec_objects().len() as int,
            self.spec_strings().len() as int,
        ) && (self.spec_objects()[k].spec_box_value() is Some ==> Interpreter::spec_value_ok(
            self.spec_objects()[k].spec_box_value()->Some_0.view(),
            self.spec_objects().len() as int,
            self.spec_strings().len() as int,
        )) by {
            assert(before.spec_objects()[k] == self.spec_objects()[k]);
        }
        assert forall|a: int| 0 <= a < self.spec_statics().len() implies Interpreter::spec_values_ok(
            (#[trigger] self.spec_statics()[a]).spec_values(),
            self.spec_objects().len() as int,
            self.spec_strings().len() as int,
        ) by {
            assert(before.spec_statics()[a] == self.spec_statics()[a]);
        }
    }

    /// The references are to places that are there where they were before, the
    /// heaps and the static fields are as they were, the operand stack holds
    /// what it held, or its lower part, and the calls that are there have the
    /// arguments and the local variables they had.
    proof fn lemma_refs_kept(&self, before: &Interpreter)
        requires
            before.spec_refs_ok(),
            self.spec_objects() == before.spec_objects(),
            self.spec_strings() == before.spec_strings(),
            self.spec_statics() == before.spec_statics(),
            self.spec_stack().len() <= before.spec_stack().len(),
            forall|i: int|
                0 <= i < self.spec_stack().len() ==> #[trigger] self.spec_stack()[i]
                    == before.spec_stack()[i],
            self.spec_frames().len() <= before.spec_frames().len(),
            forall|f: int|
                0 <= f < self.spec_frames().len() ==> (#[trigger] self.spec_frames()[f]).params
                    == before.spec_frames()[f].params && self.spec_frames()[f].locals
                    == before.spec_frames()[f].locals,
        ensures
            self.spec_refs_ok(),
    {
        assert forall|f: int| 0 <= f < self.spec_frames().len() implies Interpreter::spec_values_ok(
            (#[trigger] self.spec_frames()[f]).params@,
            self.spec_objects().len() as int,
            self.spec_strings().len() as int,
        ) && Interpreter::spec_values_ok(
            self.spec_frames()[f].locals@,
            self.spec_objects().len() as int,
            self.spec_strings().len() as int,
        ) by {
            assert(Interpreter::spec_values_ok(
                before.spec_frames()[f].params@,
                self.spec_objects().len() as int,
                self.spec_strings().len() as int,
            ));
        }
        self.lemma_refs_calls(before);
    }

    /// The references are to places that are there where they were before,
    /// nothing but the static fields has changed, and the static fields hold
    /// references to places that are there.
    proof fn lemma_refs_statics(&self, before: &Interpreter)
        requires
            before.spec_refs_ok(),
            self.spec_objects() == before.spec_objects(),
            self.spec_strings() == before.spec_strings(),
            self.spec_stack() == before.spec_stack(),
            self.spec_frames() == before.spec_frames(),
            forall|a: int|
                0 <= a < self.spec_statics().len() ==> Interpreter::spec_values_ok(
                    (#[trigger] self.spec_statics()[a]).spec_values(),
                    self.spec_objects().len() as int,
                    self.spec_strings().len() as int,
                ),
        ensures
            self.spec_refs_ok(),
    {
        assert forall|f: int| 0 <= f < self.spec_frames().len() implies Interpreter::spec_values_ok(
            (#[trigger] self.spec_frames()[f]).params@,
            self.spec_objects().len() as int,
            self.spec_strings().len() as int,
        ) && Interpreter::spec_values_ok(
            self.spec_frames()[f].locals@,
            self.spec_objects().len() as int,
            self.spec_strings().len() as int,
        ) by {
            assert(before.spec_frames()[f] == self.spec_frames()[f]);
        }
        assert forall|k: int| 0 <= k < self.spec_objects().len() implies Interpreter::spec_values_ok(
            (#[trigger] self.spec_objects()[k]).spec_field_values(),
            self.spec_objects().len() as int,
            self.spec_strings().len() as int,
        ) && (self.spec_objects()[k].spec_box_value() is Some ==> Interpreter::spec_value_ok(
            self.spec_objects()[k].spec_box_value()->Some_0.view(),
            self.spec_objects().len() as int,
            self.spec_strings().len() as int,
        )) by {
            assert(before.spec_objects()[k] == self.spec_objects()[k]);
        }
    }

    /// A static field that was initialised is still initialised.
    pub open spec fn spec_statics_kept(&self, before: &Interpreter) -> bool {
        forall|assembly_index: int, token: u32| #[trigger]
            before.spec_static_ready(assembly_index, token) ==> self.spec_static_ready(
                assembly_index,
                token,
            )
    }

    /// What holds of every step: the heaps only grow, the bound on the operand
    /// stack is kept, a step that asks for an assembly changes nothing, and the
    /// program has ended only where no call is left.
    pub open spec fn spec_step_laws(&self, before: &Interpreter, outcome: Outcome) -> bool {
        &&& self.spec_heap_grown(before)
        &&& self.spec_statics_kept(before)
        &&& outcome is Finished ==> self.spec_frames().len() == 0
        &&& before.spec_depth_ok() && !(outcome is Fault) ==> self.spec_depth_ok()
        &&& outcome is LoadAssembly ==> self.spec_same(before) && before.spec_assembly_index(
            outcome->LoadAssembly_0.name@,
        ).is_none()
    }

    /// An interpreter with `assembly` as the assembly to start, and nothing else.
    pub fn new(assembly: Assembly) -> (interpreter: Interpreter)
        ensures
            interpreter.spec_assemblies() == seq![assembly],
            interpreter.spec_assembly_index(assembly.assembly_name.name@) == Some(0usize),
            interpreter.spec_stack().len() == 0,
            interpreter.spec_objects().len() == 0,
            interpreter.spec_strings().len() == 0,
            interpreter.spec_statics().len() == 1,
            interpreter.spec_frames().len() == 0,
            interpreter.spec_depth_ok(),
            interpreter.spec_refs_ok(),
    {
        let mut assemblies: HashVec<String, Assembly> = HashVec::new();
        let name: String = assembly.assembly_name.name.clone();
        assemblies.insert(name, assembly);
        let mut static_fields: Vec<HashVec<u32, ILType>> = Vec::new();
        static_fields.push(HashVec::new());
        let interpreter = Interpreter {
            assemblies,
            stack: Vec::new(),
            objects: Vec::new(),
            strings: Vec::new(),
            static_fields,
            frames: Vec::new(),
            ctx: Context::new(0),
        };
        assert(interpreter.spec_assemblies() =~= seq![assembly]);
        assert(interpreter.assemblies.spec_keys()[0] == assembly.assembly_name.name@);
        interpreter
    }

    /// Adds a loaded assembly behind the others, with an empty store for its
    /// static fields, and returns its place. Where an assembly of the same name is
    /// there already nothing changes, and the place of that assembly is returned:
    /// no assembly ever leaves its place.
    pub fn add_assembly(&mut self, assembly: Assembly) -> (index: usize)
        ensures
            final(self).spec_stack() == old(self).spec_stack(),
            final(self).spec_objects() == old(self).spec_objects(),
            final(self).spec_strings() == old(self).spec_strings(),
            final(self).spec_frames() == old(self).spec_frames(),
            final(self).spec_ctx() == old(self).spec_ctx(),
            final(self).spec_assembly_index(assembly.assembly_name.name@) == Some(index),
            index < final(self).spec_assemblies().len(),
            match old(self).spec_assembly_index(assembly.assembly_name.name@) {
                Some(i) => index == i && *final(self) == *old(self),
                None => {
                    &&& index == old(self).spec_assemblies().len()
                    &&& final(self).spec_assemblies() == old(self).spec_assemblies().push(
                        assembly,
                    )
                    &&& forall|name: Seq<char>|
                        name != assembly.assembly_name.name@ ==> final(self).spec_assembly_index(
                            name,
                        ) == old(self).spec_assembly_index(name)
                    &&& final(self).spec_statics().len() >= old(self).spec_statics().len()
                    &&& forall|k: int|
                        0 <= k < old(self).spec_statics().len()
                            ==> #[trigger] final(self).spec_statics()[k]
                            == old(self).spec_statics()[k]
                    &&& forall|k: int|
                        old(self).spec_statics().len() <= k < final(self).spec_statics().len()
                            ==> (#[trigger] final(self).spec_statics()[k]).spec_keys().len() == 0
                    &&& final(self).spec_statics().len() >= final(self).spec_assemblies().len()
                },
            },
            old(self).spec_refs_ok() ==> final(self).spec_refs_ok(),
    {
        let name: String = assembly.assembly_name.name.clone();
        match self.assemblies.key_get_index(&name) {
            Some(index) => {
                return index;
            },
            None => {},
        }
        let index: usize = self.assemblies.len();
        self.assemblies.insert(name, assembly);
        let count: usize = self.assemblies.len();
        while self.static_fields.len() < count
            invariant
                self.stack == old(self).stack,
                self.objects == old(self).objects,
                self.strings == old(self).strings,
                self.frames == old(self).frames,
                self.ctx == old(self).ctx,
                self.assemblies.spec_values() == old(self).assemblies.spec_values().push(assembly),
                count == self.assemblies.spec_values().len(),
                self.assemblies.spec_index_of(assembly.assembly_name.name@) == Some(index),
                forall|name: Seq<char>|
                    name != assembly.assembly_name.name@ ==> self.assemblies.spec_index_of(name)
                        == old(self).assemblies.spec_index_of(name),
                self.static_fields@.len() >= old(self).static_fields@.len(),
                forall|k: int|
                    0 <= k < old(self).static_fields@.len() ==> #[trigger] self.static_fields@[k]
                        == old(self).static_fields@[k],
                forall|k: int|
                    old(self).static_fields@.len() <= k < self.static_fields@.len() ==> (
                    #[trigger] self.static_fields@[k]).spec_keys().len() == 0,
                forall|k: int|
                    old(self).static_fields@.len() <= k < self.static_fields@.len() ==> (
                    #[trigger] self.static_fields@[k]).spec_values().len() == 0,
            decreases count - self.static_fields@.len(),
        {
            self.static_fields.push(HashVec::new());
        }
        proof {
            if old(self).spec_refs_ok() {
                assert forall|a: int| 0 <= a < self.spec_statics().len() implies Interpreter::spec_values_ok(
                    (#[trigger] self.spec_statics()[a]).spec_values(),
                    self.spec_objects().len() as int,
                    self.spec_strings().len() as int,
                ) by {
                    if a < old(self).spec_statics().len() {
                        assert(self.spec_statics()[a] == old(self).spec_statics()[a]);
                    }
                }
                self.lemma_refs_statics(old(self));
            }
        }
        index
    }

    /// The number of values on the operand stack.
    pub fn stack_len(&self) -> (n: usize)
        ensures
            n == self.spec_stack().len(),
    {
        self.stack.len()
    }

    /// The number of objects in the object heap.
    pub fn objects_len(&self) -> (n: usize)
        ensures
            n == self.spec_objects().len(),
    {
        self.objects.len()
    }

    /// The number of strings in the string heap.
    pub fn strings_len(&self) -> (n: usize)
        ensures
            n == self.spec_strings().len(),
    {
        self.strings.len()
    }

    /// The number of calls in progress.
    pub fn frames_len(&self) -> (n: usize)
        ensures
            n == self.spec_frames().len(),
    {
        self.frames.len()
    }

    /// The number of loaded assemblies.
    pub fn assemblies_len(&self) -> (n: usize)
        ensures
            n == self.spec_assemblies().len(),
    {
        self.assemblies.len()
    }

    /// The value at place `index` of the operand stack, counted from the bottom.
    pub fn stack_get(&self, index: usize) -> (value: Option<&ILType>)
        ensures
            match value {
                Some(v) => index < self.spec_stack().len() && *v == self.spec_stack()[index as int],
                None => index >= self.spec_stack().len(),
            },
    {
        if index < self.stack.len() {
            Some(&self.stack[index])
        } else {
            None
        }
    }

    /// The object at place `index` of the object heap.
    pub fn object_get(&self, index: usize) -> (object: Option<&Object>)
        ensures
            match object {
                Some(o) => index < self.spec_objects().len() && *o == self.spec_objects()[index as int],
                None => index >= self.spec_objects().len(),
            },
    {
        if index < self.objects.len() {
            Some(&self.objects[index])
        } else {
            None
        }
    }

    /// The string at place `index` of the string heap.
    pub fn string_get(&self, index: usize) -> (string: Option<&String>)
        ensures
            match string {
                Some(s) => index < self.spec_strings().len() && *s == self.spec_strings()[index as int],
                None => index >= self.spec_strings().len(),
            },
    {
        if index < self.strings.len() {
            Some(&self.strings[index])
        } else {
            None
        }
    }

    /// The call that executes.
    pub fn top_frame(&self) -> (frame: Option<&Frame>)
        ensures
            match frame {
                Some(f) => self.spec_frames().len() > 0 && *f == self.spec_top(),
                None => self.spec_frames().len() == 0,
            },
    {
        if self.frames.len() > 0 {
            Some(&self.frames[self.frames.len() - 1])
        } else {
            None
        }
    }

    /// The value of the static field `token` of the assembly at `assembly_index`,
    /// where the field has been initialised.
    pub fn static_get(&self, assembly_index: usize, token: u32) -> (value: Option<&ILType>)
        ensures
            match value {
                Some(v) => assembly_index < self.spec_statics().len() && self.spec_statics()[assembly_index as int].spec_index_of(
                    token,
                ).is_some(),
                None => assembly_index >= self.spec_statics().len() || self.spec_statics()[assembly_index as int].spec_index_of(
                    token,
                ).is_none(),
            },
    {
        if assembly_index < self.static_fields.len() {
            self.static_fields[assembly_index].key_get(&token)
        } else {
            None
        }
    }

    /// Puts `value` on the operand stack. Fails where the executing method may
    /// keep no more values there.
    pub fn push(&mut self, value: ILType) -> (result: Result<(), Fault>)
        ensures
            result is Ok <==> old(self).spec_frames().len() == 0 || old(self).spec_has_room(),
            final(self).spec_rest_same(old(self)),
            match result {
                Ok(()) => {
                    &&& final(self).spec_stack() == old(self).spec_stack().push(value)
                    &&& old(self).spec_frames().len() > 0 ==> old(self).spec_stack().len() < old(self).spec_top().stack_base + old(self).spec_top().max_stack
                    &&& old(self).spec_depth_ok() ==> final(self).spec_depth_ok()
                },
                Err(e) => {
                    &&& e == Fault::StackOverflow
                    &&& final(self).spec_stack() == old(self).spec_stack()
                    &&& old(self).spec_frames().len() > 0
                    &&& old(self).spec_stack().len() >= old(self).spec_top().stack_base + old(self).spec_top().max_stack
                },
            },
            old(self).spec_refs_ok() && Interpreter::spec_value_ok(
                value.view(),
                old(self).spec_objects().len() as int,
                old(self).spec_strings().len() as int,
            ) ==> final(self).spec_refs_ok(),
    {
        let n: usize = self.frames.len();
        if n > 0 {
            let base: usize = self.frames[n - 1].stack_base;
            let max: usize = self.frames[n - 1].max_stack;
            let len: usize = self.stack.len();
            if len >= base && len - base >= max {
                return Err(Fault::StackOverflow);
            }
        }
        self.stack.push(value);
        proof {
            if old(self).spec_refs_ok() && Interpreter::spec_value_ok(
                value.view(),
                old(self).spec_objects().len() as int,
                old(self).spec_strings().len() as int,
            ) {
                Interpreter::lemma_values_put(
                    old(self).spec_stack(),
                    self.spec_stack(),
                    value,
                    0,
                    self.spec_objects().len() as int,
                    self.spec_strings().len() as int,
                );
                assert forall|f: int| 0 <= f < self.spec_frames().len() implies Interpreter::spec_values_ok(
                    (#[trigger] self.spec_frames()[f]).params@,
                    self.spec_objects().len() as int,
                    self.spec_strings().len() as int,
                ) && Interpreter::spec_values_ok(
                    self.spec_frames()[f].locals@,
                    self.spec_objects().len() as int,
                    self.spec_strings().len() as int,
                ) by {
                    assert(self.spec_frames()[f] == old(self).spec_frames()[f]);
                }
                self.lemma_refs_calls(old(self));
            }
        }
        Ok(())
    }

    /// Takes the top value off the operand stack. Fails where the executing
    /// method has no value there.
    pub fn pop(&mut self) -> (result: Result<ILType, Fault>)
        ensures
            final(self).spec_rest_same(old(self)),
            match result {
                Ok(value) => {
                    &&& old(self).spec_stack().len() > 0
                    &&& value == old(self).spec_stack()[old(self).spec_stack().len() - 1]
                    &&& final(self).spec_stack() == old(self).spec_stack().drop_last()
                    &&& old(self).spec_frames().len() > 0 ==> old(self).spec_stack().len() > old(self).spec_top().stack_base
                    &&& old(self).spec_depth_ok() ==> final(self).spec_depth_ok()
                },
                Err(e) => {
                    &&& e == Fault::StackUnderflow
                    &&& final(self).spec_stack() == old(self).spec_stack()
                    &&& old(self).spec_stack().len() == 0 || (old(self).spec_frames().len() > 0
                        && old(self).spec_stack().len() <= old(self).spec_top().stack_base)
                },
            },
            old(self).spec_refs_ok() ==> final(self).spec_refs_ok(),
            old(self).spec_refs_ok() && result is Ok ==> Interpreter::spec_value_ok(
                result->Ok_0.view(),
                old(self).spec_objects().len() as int,
                old(self).spec_strings().len() as int,
            ),
    {
        let n: usize = self.frames.len();
        if n > 0 {
            let base: usize = self.frames[n - 1].stack_base;
            if self.stack.len() <= base {
                return Err(Fault::StackUnderflow);
            }
        }
        match self.stack.pop() {
            Some(value) => {
                proof {
                    let len = old(self).spec_stack().len() as int;
                    assert(value == old(self).spec_stack()[len - 1]);
                    if old(self).spec_refs_ok() {
                        assert forall|i: int| 0 <= i < self.spec_stack().len() implies Interpreter::spec_value_ok(
                            (#[trigger] self.spec_stack()[i]).view(),
                            self.spec_objects().len() as int,
                            self.spec_strings().len() as int,
                        ) by {
                            assert(self.spec_stack()[i] == old(self).spec_stack()[i]);
                        }
                        assert forall|f: int| 0 <= f < self.spec_frames().len() implies Interpreter::spec_values_ok(
                            (#[trigger] self.spec_frames()[f]).params@,
                            self.spec_objects().len() as int,
                            self.spec_strings().len() as int,
                        ) && Interpreter::spec_values_ok(
                            self.spec_frames()[f].locals@,
                            self.spec_objects().len() as int,
                            self.spec_strings().len() as int,
                        ) by {
                            assert(self.spec_frames()[f] == old(self).spec_frames()[f]);
                        }
                        self.lemma_refs_calls(old(self));
                    }
                }
                Ok(value)
            },
            None => {
                proof {
                    if old(self).spec_refs_ok() {
                        assert(self.spec_stack() == old(self).spec_stack());
                        assert forall|f: int| 0 <= f < self.spec_frames().len() implies Interpreter::spec_values_ok(
                            (#[trigger] self.spec_frames()[f]).params@,
                            self.spec_objects().len() as int,
                            self.spec_strings().len() as int,
                        ) && Interpreter::spec_values_ok(
                            self.spec_frames()[f].locals@,
                            self.spec_objects().len() as int,
                            self.spec_strings().len() as int,
                        ) by {
                            assert(self.spec_frames()[f] == old(self).spec_frames()[f]);
                        }
                        self.lemma_refs_calls(old(self));
                    }
                }
                Err(Fault::StackUnderflow)
            },
        }
    }

    /// A copy of the top value of the operand stack.
    pub fn peek(&self) -> (result: Result<ILType, Fault>)
        ensures
            match result {
                Ok(value) => {
                    &&& self.spec_stack().len() > 0
                    &&& value.view() == self.spec_stack()[self.spec_stack().len() - 1].view()
                    &&& self.spec_frames().len() > 0 ==> self.spec_stack().len()
                        > self.spec_top().stack_base
                },
                Err(e) => {
                    &&& e == Fault::StackUnderflow
                    &&& self.spec_stack().len() == 0 || (self.spec_frames().len() > 0
                        && self.spec_stack().len() <= self.spec_top().stack_base)
                },
            },
            self.spec_refs_ok() && result is Ok ==> Interpreter::spec_value_ok(
                result->Ok_0.view(),
                self.spec_objects().len() as int,
                self.spec_strings().len() as int,
            ),
    {
        let n: usize = self.frames.len();
        let len: usize = self.stack.len();
        if len == 0 {
            return Err(Fault::StackUnderflow);
        }
        if n > 0 {
            let base: usize = self.frames[n - 1].stack_base;
            if len <= base {
                return Err(Fault::StackUnderflow);
            }
        }
        Ok(self.stack[len - 1].duplicate())
    }

    /// Hands the result of a floating-point operation that a step asked for back
    /// to the interpreter: the number with the bits `bits`, of double precision
    /// where `wide` holds.
    pub fn push_float(&mut self, wide: bool, bits: u64) -> (result: Result<(), Fault>)
        ensures
            final(self).spec_rest_same(old(self)),
            result is Ok <==> old(self).spec_frames().len() == 0 || old(self).spec_has_room(),
            match result {
                Ok(()) => final(self).spec_pushed(
                    old(self),
                    if wide {
                        ILTypeView::Val(ILValType::Double(bits))
                    } else {
                        ILTypeView::Val(ILValType::Single((bits % 0x1_0000_0000) as u32))
                    },
                ) && (old(self).spec_depth_ok() ==> final(self).spec_depth_ok()),
                Err(e) => e == Fault::StackOverflow && final(self).spec_stack() == old(self).spec_stack(),
            },
            old(self).spec_refs_ok() ==> final(self).spec_refs_ok(),
    {
        let value: ILType = if wide {
            ILType::Val(ILValType::Double(bits))
        } else {
            ILType::Val(ILValType::Single((bits % 0x1_0000_0000) as u32))
        };
        let result = self.push(value);
        proof {
            if result is Ok {
                assert(self.spec_stack().drop_last() =~= old(self).spec_stack());
            }
        }
        result
    }

    /// Moves the executing call to the instruction at `rip`.
    pub fn set_rip(&mut self, rip: usize)
        requires
            old(self).spec_frames().len() > 0,
        ensures
            final(self).spec_registry() == old(self).spec_registry(),
            final(self).spec_assemblies() == old(self).spec_assemblies(),
            forall|name: Seq<char>|
                final(self).spec_assembly_index(name) == old(self).spec_assembly_index(name),
            final(self).spec_stack() == old(self).spec_stack(),
            final(self).spec_objects() == old(self).spec_objects(),
            final(self).spec_strings() == old(self).spec_strings(),
            final(self).spec_statics() == old(self).spec_statics(),
            final(self).spec_ctx() == old(self).spec_ctx(),
            final(self).spec_frames().len() == old(self).spec_frames().len(),
            forall|i: int|
                0 <= i < old(self).spec_frames().len() - 1 ==> final(self).spec_frames()[i]
                    == old(self).spec_frames()[i],
            final(self).spec_top().rip == rip,
            final(self).spec_top().assembly_index == old(self).spec_top().assembly_index,
            final(self).spec_top().method_index == old(self).spec_top().method_index,
            final(self).spec_top().params == old(self).spec_top().params,
            final(self).spec_top().locals == old(self).spec_top().locals,
            final(self).spec_top().stack_base == old(self).spec_top().stack_base,
            final(self).spec_top().max_stack == old(self).spec_top().max_stack,
            final(self).spec_top().stack_id == old(self).spec_top().stack_id,
            old(self).spec_depth_ok() ==> final(self).spec_depth_ok(),
            old(self).spec_refs_ok() ==> final(self).spec_refs_ok(),
    {
        let n: usize = self.frames.len();
        self.frames[n - 1].rip = rip;
        proof {
            if old(self).spec_refs_ok() {
                self.lemma_refs_kept(old(self));
            }
            if old(self).spec_depth_ok() {
                assert forall|i: int, j: int|
                    0 <= i <= j < self.spec_frames().len() implies self.spec_frames()[i].stack_base
                    <= self.spec_frames()[j].stack_base by {
                    assert(self.spec_frames()[i].stack_base == old(self).spec_frames()[i].stack_base);
                    assert(self.spec_frames()[j].stack_base == old(self).spec_frames()[j].stack_base);
                }
            }
        }
    }

    /// The code of the assembly at `assembly_index`: the bytes of its image.
    pub open spec fn spec_code(&self, assembly_index: int) -> Seq<u8> {
        self.spec_assemblies()[assembly_index].reader.bytes()
    }

    /// Reads one byte of the code of the assembly at `assembly_index`.
    pub fn code_u8(&self, assembly_index: usize, rip: &mut usize) -> (result: Result<u8, Fault>)
        ensures
            match result {
                Ok(v) => {
                    &&& assembly_index < self.spec_assemblies().len()
                    &&& *old(rip) < self.spec_code(assembly_index as int).len()
                    &&& v == self.spec_code(assembly_index as int)[*old(rip) as int]
                    &&& *final(rip) == *old(rip) + 1
                },
                Err(e) => e == Fault::CodeOutOfBounds && *final(rip) == *old(rip) && (
                assembly_index >= self.spec_assemblies().len() || *old(rip) + 1 > self.spec_code(
                    assembly_index as int,
                ).len()),
            },
    {
        match self.assemblies.index_get(assembly_index) {
            Some(assembly) => match assembly.reader.read_u8_immut(rip) {
                Ok(v) => Ok(v),
                Err(_) => Err(Fault::CodeOutOfBounds),
            },
            None => Err(Fault::CodeOutOfBounds),
        }
    }

    /// Reads two bytes of the code of the assembly at `assembly_index`.
    pub fn code_u16(&self, assembly_index: usize, rip: &mut usize) -> (result: Result<u16, Fault>)
        ensures
            match result {
                Ok(v) => {
                    &&& assembly_index < self.spec_assemblies().len()
                    &&& *old(rip) + 2 <= self.spec_code(assembly_index as int).len()
                    &&& v == spec_u16_le(self.spec_code(assembly_index as int), *old(rip) as int)
                    &&& *final(rip) == *old(rip) + 2
                },
                Err(e) => e == Fault::CodeOutOfBounds && *final(rip) == *old(rip) && (
                assembly_index >= self.spec_assemblies().len() || *old(rip) + 2 > self.spec_code(
                    assembly_index as int,
                ).len()),
            },
    {
        match self.assemblies.index_get(assembly_index) {
            Some(assembly) => match assembly.reader.read_u16_immut(rip) {
                Ok(v) => Ok(v),
                Err(_) => Err(Fault::CodeOutOfBounds),
            },
            None => Err(Fault::CodeOutOfBounds),
        }
    }

    /// Reads four bytes of the code of the assembly at `assembly_index`.
    pub fn code_u32(&self, assembly_index: usize, rip: &mut usize) -> (result: Result<u32, Fault>)
        ensures
            match result {
                Ok(v) => {
                    &&& assembly_index < self.spec_assemblies().len()
                    &&& *old(rip) + 4 <= self.spec_code(assembly_index as int).len()
                    &&& v == spec_u32_le(self.spec_code(assembly_index as int), *old(rip) as int)
                    &&& *final(rip) == *old(rip) + 4
                },
                Err(e) => e == Fault::CodeOutOfBounds && *final(rip) == *old(rip) && (
                assembly_index >= self.spec_assemblies().len() || *old(rip) + 4 > self.spec_code(
                    assembly_index as int,
                ).len()),
            },
    {
        match self.assemblies.index_get(assembly_index) {
            Some(assembly) => match assembly.reader.read_u32_immut(rip) {
                Ok(v) => Ok(v),
                Err(_) => Err(Fault::CodeOutOfBounds),
            },
            None => Err(Fault::CodeOutOfBounds),
        }
    }

    /// Reads eight bytes of the code of the assembly at `assembly_index`.
    pub fn code_u64(&self, assembly_index: usize, rip: &mut usize) -> (result: Result<u64, Fault>)
        ensures
            match result {
                Ok(v) => {
                    &&& assembly_index < self.spec_assemblies().len()
                    &&& *old(rip) + 8 <= self.spec_code(assembly_index as int).len()
                    &&& v == spec_u64_le(self.spec_code(assembly_index as int), *old(rip) as int)
                    &&& *final(rip) == *old(rip) + 8
                },
                Err(e) => e == Fault::CodeOutOfBounds && *final(rip) == *old(rip) && (
                assembly_index >= self.spec_assemblies().len() || *old(rip) + 8 > self.spec_code(
                    assembly_index as int,
                ).len()),
            },
    {
        match self.assemblies.index_get(assembly_index) {
            Some(assembly) => match assembly.reader.read_u64_immut(rip) {
                Ok(v) => Ok(v),
                Err(_) => Err(Fault::CodeOutOfBounds),
            },
            None => Err(Fault::CodeOutOfBounds),
        }
    }

    /// The text that stands for an object without a boxed value.
    pub open spec fn spec_object_text(token: u32) -> Seq<char> {
        "Object: type_token: "@ + spec_decimal(token as nat)
    }

    /// What rendering the object at place `index` gives: the rendering of its
    /// boxed value, which may be a reference to an object made before it, or the
    /// text that stands for an object without one.
    pub open spec fn spec_render_object(
        objects: Seq<Object>,
        strings: Seq<String>,
        index: nat,
    ) -> RenderedView
        decreases index,
    {
        if index >= objects.len() {
            RenderedView::Text("Null"@)
        } else {
            match objects[index as int].spec_box_value() {
                Some(inner) => match inner.view() {
                    ILTypeView::Ref(ILRefType::Object(j)) => if j < index {
                        Interpreter::spec_render_object(objects, strings, j as nat)
                    } else {
                        RenderedView::Text(
                            Interpreter::spec_object_text(objects[index as int].spec_origin()),
                        )
                    },
                    other => Interpreter::spec_render_plain(strings, other),
                },
                None => RenderedView::Text(
                    Interpreter::spec_object_text(objects[index as int].spec_origin()),
                ),
            }
        }
    }

    /// What rendering a value that is no reference to an object gives: the text
    /// of a primitive value or the bits of a floating-point number; `Null` for
    /// the null reference; the string that a string reference names; a
    /// description of a pointer.
    pub open spec fn spec_render_plain(strings: Seq<String>, value: ILTypeView) -> RenderedView {
        match value {
            ILTypeView::Val(ILValType::Single(bits)) => RenderedView::Single(bits),
            ILTypeView::Val(ILValType::Double(bits)) => RenderedView::Double(bits),
            ILTypeView::Val(v) => RenderedView::Text(v.spec_text().unwrap()),
            ILTypeView::Ref(ILRefType::String(i)) => if i < strings.len() {
                RenderedView::Text(strings[i as int]@)
            } else {
                RenderedView::Text("Null"@)
            },
            ILTypeView::Ref(_) => RenderedView::Text("Null"@),
            ILTypeView::Ptr(ILPtr::Param(id, index)) => RenderedView::Text(
                "Ptr: Param("@ + spec_decimal(id as nat) + ", "@ + spec_decimal(index as nat)
                    + ")"@,
            ),
            ILTypeView::Ptr(ILPtr::Local(id, index)) => RenderedView::Text(
                "Ptr: Local("@ + spec_decimal(id as nat) + ", "@ + spec_decimal(index as nat)
                    + ")"@,
            ),
            ILTypeView::Ptr(ILPtr::Static(assembly, token)) => RenderedView::Text(
                "Ptr: Static("@ + spec_decimal(assembly as nat) + ", "@ + spec_decimal(
                    token as nat,
                ) + ")"@,
            ),
            ILTypeView::NPtr(data, offset) => RenderedView::Text(
                "NPtr: "@ + spec_decimal(offset as nat),
            ),
        }
    }

    /// What rendering a value gives.
    pub open spec fn spec_render(objects: Seq<Object>, strings: Seq<String>, value: ILTypeView) -> RenderedView {
        match value {
            ILTypeView::Ref(ILRefType::Object(i)) => Interpreter::spec_render_object(
                objects,
                strings,
                i as nat,
            ),
            other => Interpreter::spec_render_plain(strings, other),
        }
    }

    fn pointer_text(kind: &str, first: usize, second: u64) -> (text: String)
        ensures
            text@ == "Ptr: "@ + kind@ + "("@ + spec_decimal(first as nat) + ", "@ + spec_decimal(
                second as nat,
            ) + ")"@,
    {
        let mut text: String = String::from_str("Ptr: ");
        text.append(kind);
        text.append("(");
        push_decimal(&mut text, first as u64);
        text.append(", ");
        push_decimal(&mut text, second);
        text.append(")");
        text
    }

    fn render_plain(&self, il_type: &ILType) -> (rendered: Rendered)
        requires
            !(il_type.view() is Ref && il_type.view()->Ref_0 is Object),
        ensures
            rendered.view() == Interpreter::spec_render_plain(self.spec_strings(), il_type.view()),
    {
        proof {
            reveal_strlit("Ptr: ");
            reveal_strlit("Ptr: Param(");
            reveal_strlit("Ptr: Local(");
            reveal_strlit("Ptr: Static(");
            reveal_strlit("Param");
            reveal_strlit("Local");
            reveal_strlit("Static");
            reveal_strlit("(");
        }
        match il_type {
            ILType::Val(ILValType::Single(bits)) => Rendered::Single(*bits),
            ILType::Val(ILValType::Double(bits)) => Rendered::Double(*bits),
            ILType::Val(v) => match v.to_text() {
                Some(text) => Rendered::Text(text),
                None => Rendered::Text(String::from_str("Null")),
            },
            ILType::Ref(ILRefType::String(i)) => {
                if *i < self.strings.len() {
                    Rendered::Text(self.strings[*i].clone())
                } else {
                    Rendered::Text(String::from_str("Null"))
                }
            },
            ILType::Ref(_) => Rendered::Text(String::from_str("Null")),
            ILType::Ptr(ILPtr::Param(id, index)) => {
                let text = Interpreter::pointer_text("Param", *id, *index as u64);
                assert(text@ =~= "Ptr: Param("@ + spec_decimal(*id as nat) + ", "@ + spec_decimal(
                    *index as nat,
                ) + ")"@);
                Rendered::Text(text)
            },
            ILType::Ptr(ILPtr::Local(id, index)) => {
                let text = Interpreter::pointer_text("Local", *id, *index as u64);
                assert(text@ =~= "Ptr: Local("@ + spec_decimal(*id as nat) + ", "@ + spec_decimal(
                    *index as nat,
                ) + ")"@);
                Rendered::Text(text)
            },
            ILType::Ptr(ILPtr::Static(assembly, token)) => {
                let text = Interpreter::pointer_text("Static", *assembly, *token as u64);
                assert(text@ =~= "Ptr: Static("@ + spec_decimal(*assembly as nat) + ", "@
                    + spec_decimal(*token as nat) + ")"@);
                Rendered::Text(text)
            },
            ILType::NPtr(n) => {
                let mut text: String = String::from_str("NPtr: ");
                let ghost offset = n.spec_offset();
                push_decimal(&mut text, n.offset_value() as u64);
                Rendered::Text(text)
            },
        }
    }

    fn object_text(token: u32) -> (text: String)
        ensures
            text@ == Interpreter::spec_object_text(token),
    {
        let mut text: String = String::from_str("Object: type_token: ");
        push_decimal(&mut text, token as u64);
        text
    }

    fn render_object(&self, index: usize) -> (rendered: Rendered)
        ensures
            rendered.view() == Interpreter::spec_render_object(
                self.spec_objects(),
                self.spec_strings(),
                index as nat,
            ),
        decreases index,
    {
        if index >= self.objects.len() {
            return Rendered::Text(String::from_str("Null"));
        }
        let object: &Object = &self.objects[index];
        match object.get_box_value() {
            Some(inner) => match inner {
                ILType::Ref(ILRefType::Object(j)) => {
                    if *j < index {
                        self.render_object(*j)
                    } else {
                        Rendered::Text(Interpreter::object_text(object.get_type()))
                    }
                },
                other => self.render_plain(other),
            },
            None => Rendered::Text(Interpreter::object_text(object.get_type())),
        }
    }

    /// Renders a value for output.
    pub fn format_il_type(&self, il_type: &ILType) -> (rendered: Rendered)
        ensures
            rendered.view() == Interpreter::spec_render(
                self.spec_objects(),
                self.spec_strings(),
                il_type.view(),
            ),
    {
        match il_type {
            ILType::Ref(ILRefType::Object(i)) => self.render_object(*i),
            other => self.render_plain(other),
        }
    }

    /// The byte `b` read as a signed number.
    pub open spec fn spec_i8(b: u8) -> int {
        if b >= 0x80 {
            b - 0x100
        } else {
            b as int
        }
    }

    /// The four bytes `v` read as a signed number.
    pub open spec fn spec_i32(v: u32) -> int {
        if v >= 0x8000_0000 {
            v - 0x1_0000_0000
        } else {
            v as int
        }
    }

    /// The eight bytes `v` read as a signed number.
    pub open spec fn spec_i64(v: u64) -> int {
        if v >= 0x8000_0000_0000_0000 {
            v - 0x1_0000_0000_0000_0000
        } else {
            v as int
        }
    }

    pub fn as_i8(b: u8) -> (v: i32)
        ensures
            v == Interpreter::spec_i8(b),
    {
        if b >= 0x80 {
            b as i32 - 0x100
        } else {
            b as i32
        }
    }

    pub fn as_i32(v: u32) -> (out: i32)
        ensures
            out == Interpreter::spec_i32(v),
    {
        if v >= 0x8000_0000 {
            (v as i64 - 0x1_0000_0000) as i32
        } else {
            v as i32
        }
    }

    pub fn as_i64(v: u64) -> (out: i64)
        ensures
            out == Interpreter::spec_i64(v),
    {
        if v >= 0x8000_0000_0000_0000 {
            let low: u64 = v - 0x8000_0000_0000_0000;
            (low as i64) + i64::MIN
        } else {
            v as i64
        }
    }

    /// Where a branch leads: `offset` bytes from `rip`, the place behind the
    /// operand of the branch; `None` where there is no such place.
    pub fn branch_target(rip: usize, offset: i32) -> (target: Option<usize>)
        ensures
            match target {
                Some(t) => t == rip + offset,
                None => rip + offset < 0 || rip + offset > usize::MAX,
            },
    {
        if offset >= 0 {
            let forward: usize = offset as usize;
            if forward <= usize::MAX - rip {
                Some(rip + forward)
            } else {
                None
            }
        } else {
            let back: u64 = (-(offset as i64)) as u64;
            if back <= rip as u64 {
                Some(rip - back as usize)
            } else {
                None
            }
        }
    }

    /// Where the instruction behind a switch with `n` targets lies, whose table
    /// starts at `table_start`: behind the table.
    pub open spec fn spec_switch_end(table_start: int, n: u32) -> int {
        table_start + 4 * n
    }

    /// A step that put `value` on the operand stack and went on to `rip`.
    fn op_push(&mut self, value: ILType, rip: usize) -> (outcome: Outcome)
        requires
            old(self).spec_frames().len() > 0,
        ensures
            final(self).spec_step_laws(old(self), outcome),
            !(outcome is LoadAssembly),
            final(self).spec_heaps_same(old(self)),
            final(self).spec_frames().len() == old(self).spec_frames().len(),
            outcome is Continue ==> final(self).spec_stack() == old(self).spec_stack().push(value)
                && final(self).spec_top().rip == rip,
            outcome is Continue ==> final(self).spec_pushed(old(self), value.view()) && final(self).spec_went_on(old(self), rip as int) && final(self).spec_slots_same(old(self)),
            outcome is Continue || outcome == Outcome::Fault(Fault::StackOverflow),
            outcome is Continue <==> old(self).spec_stack().len() < old(self).spec_top().stack_base
                + old(self).spec_top().max_stack,
            old(self).spec_refs_ok() && Interpreter::spec_value_ok(
                value.view(),
                old(self).spec_objects().len() as int,
                old(self).spec_strings().len() as int,
            ) ==> final(self).spec_refs_ok(),
    {
        match self.push(value) {
            Ok(()) => {
                self.set_rip(rip);
                proof {
                    assert(self.spec_stack().drop_last() =~= old(self).spec_stack());
                }
                Outcome::Continue
            },
            Err(f) => Outcome::Fault(f),
        }
    }

    /// A step that took the top value off the operand stack and went on to `rip`.
    fn op_pop(&mut self, rip: usize) -> (outcome: Outcome)
        requires
            old(self).spec_frames().len() > 0,
        ensures
            final(self).spec_step_laws(old(self), outcome),
            !(outcome is LoadAssembly),
            outcome is Continue ==> final(self).spec_stack() == old(self).spec_stack().drop_last()
                && final(self).spec_top().rip == rip,
            final(self).spec_heaps_same(old(self)),
            outcome is Continue <==> old(self).spec_has_values(1),
            outcome is Continue ==> final(self).spec_popped(old(self), 1) && final(self).spec_went_on(old(self), rip as int) && final(self).spec_slots_same(old(self)),
            !(outcome is Continue) ==> outcome == Outcome::Fault(Fault::StackUnderflow),
            old(self).spec_refs_ok() ==> final(self).spec_refs_ok(),
    {
        match self.pop() {
            Ok(_) => {
                self.set_rip(rip);
                proof {
                    assert(self.spec_stack() =~= old(self).spec_stack().subrange(
                        0,
                        old(self).spec_stack().len() - 1,
                    ));
                }
                Outcome::Continue
            },
            Err(f) => Outcome::Fault(f),
        }
    }

    fn op_dup(&mut self, rip: usize) -> (outcome: Outcome)
        requires
            old(self).spec_frames().len() > 0,
        ensures
            final(self).spec_step_laws(old(self), outcome),
            !(outcome is LoadAssembly),
            outcome is Continue ==> final(self).spec_stack().len() == old(self).spec_stack().len()
                + 1 && final(self).spec_top().rip == rip,
            final(self).spec_heaps_same(old(self)),
            outcome is Continue ==> old(self).spec_has_values(1) && final(self).spec_pushed(
                old(self),
                old(self).spec_stack_top(),
            ) && final(self).spec_went_on(old(self), rip as int) && final(self).spec_slots_same(
                old(self),
            ),
            outcome is Continue || outcome is Fault,
            outcome is Continue <==> old(self).spec_has_values(1) && old(self).spec_has_room(),
            old(self).spec_refs_ok() ==> final(self).spec_refs_ok(),
    {
        match self.peek() {
            Ok(value) => self.op_push(value, rip),
            Err(f) => Outcome::Fault(f),
        }
    }

    /// Puts a copy of parameter `index`, or of local variable `index` where
    /// `local` holds, on the operand stack.
    fn op_load_slot(&mut self, local: bool, index: usize, rip: usize) -> (outcome: Outcome)
        requires
            old(self).spec_frames().len() > 0,
        ensures
            final(self).spec_step_laws(old(self), outcome),
            !(outcome is LoadAssembly),
            outcome is Continue ==> {
                let slots = if local {
                    old(self).spec_top().locals@
                } else {
                    old(self).spec_top().params@
                };
                &&& index < slots.len()
                &&& final(self).spec_stack().len() == old(self).spec_stack().len() + 1
                &&& final(self).spec_stack()[old(self).spec_stack().len() as int].view()
                    == slots[index as int].view()
                &&& final(self).spec_top().rip == rip
            },
            outcome is Continue ==> final(self).spec_slot_effect(
                old(self),
                0,
                local,
                index as int,
                rip as int,
            ),
            outcome is Continue || outcome is Fault,
            outcome is Continue <==> Interpreter::spec_slot_ok(old(self), 0, local, index as int),
            old(self).spec_refs_ok() ==> final(self).spec_refs_ok(),
    {
        let n: usize = self.frames.len();
        let value: ILType = if local {
            if index >= self.frames[n - 1].locals.len() {
                return Outcome::Fault(Fault::InvalidIndex);
            }
            self.frames[n - 1].locals[index].duplicate()
        } else {
            if index >= self.frames[n - 1].params.len() {
                return Outcome::Fault(Fault::InvalidIndex);
            }
            self.frames[n - 1].params[index].duplicate()
        };
        self.op_push(value, rip)
    }

    /// Takes the top value off the operand stack into parameter `index`, or into
    /// local variable `index` where `local` holds.
    fn op_store_slot(&mut self, local: bool, index: usize, rip: usize) -> (outcome: Outcome)
        requires
            old(self).spec_frames().len() > 0,
        ensures
            final(self).spec_step_laws(old(self), outcome),
            !(outcome is LoadAssembly),
            outcome is Continue ==> final(self).spec_stack() == old(self).spec_stack().drop_last()
                && final(self).spec_top().rip == rip,
            outcome is Continue ==> final(self).spec_slot_effect(
                old(self),
                1,
                local,
                index as int,
                rip as int,
            ),
            outcome is Continue || outcome is Fault,
            outcome is Continue <==> Interpreter::spec_slot_ok(old(self), 1, local, index as int),
            old(self).spec_refs_ok() ==> final(self).spec_refs_ok(),
    {
        let n: usize = self.frames.len();
        let size: usize = if local {
            self.frames[n - 1].locals.len()
        } else {
            self.frames[n - 1].params.len()
        };
        if index >= size {
            return Outcome::Fault(Fault::InvalidIndex);
        }
        let value: ILType = match self.pop() {
            Ok(v) => v,
            Err(f) => {
                return Outcome::Fault(f);
            },
        };
        let ghost mid = *self;
        if local {
            self.frames[n - 1].locals[index] = value;
        } else {
            self.frames[n - 1].params[index] = value;
        }
        self.frames[n - 1].rip = rip;
        proof {
            if old(self).spec_depth_ok() {
                assert forall|i: int, j: int|
                    0 <= i <= j < self.spec_frames().len() implies self.spec_frames()[i].stack_base
                    <= self.spec_frames()[j].stack_base by {
                    assert(self.spec_frames()[i].stack_base == mid.spec_frames()[i].stack_base);
                    assert(self.spec_frames()[j].stack_base == mid.spec_frames()[j].stack_base);
                }
            }
        }
        Outcome::Continue
    }

    /// Puts a pointer to parameter `index`, or to local variable `index` where
    /// `local` holds, on the operand stack.
    fn op_load_slot_address(&mut self, local: bool, index: usize, rip: usize) -> (outcome: Outcome)
        requires
            old(self).spec_frames().len() > 0,
        ensures
            final(self).spec_step_laws(old(self), outcome),
            !(outcome is LoadAssembly),
            outcome is Continue ==> final(self).spec_slot_effect(
                old(self),
                2,
                local,
                index as int,
                rip as int,
            ),
            outcome is Continue || outcome is Fault,
            outcome is Continue <==> Interpreter::spec_slot_ok(old(self), 2, local, index as int),
            old(self).spec_refs_ok() ==> final(self).spec_refs_ok(),
    {
        let n: usize = self.frames.len();
        let id: usize = self.frames[n - 1].stack_id;
        let pointer: ILPtr = if local {
            ILPtr::Local(id, index)
        } else {
            ILPtr::Param(id, index)
        };
        self.op_push(ILType::Ptr(pointer), rip)
    }

    /// Takes two values off the operand stack and puts the result of an operator
    /// there: the sum for 0, the difference for 1, and the common bits, the
    /// bits of either and the bits of exactly one for 2, 3 and every other number.
    fn op_binary(&mut self, kind: u8, rip: usize) -> (outcome: Outcome)
        requires
            old(self).spec_frames().len() > 0,
        ensures
            final(self).spec_step_laws(old(self), outcome),
            !(outcome is LoadAssembly),
            outcome is Continue && kind == 0 ==> old(self).spec_stack().len() >= 2
                && ILType::spec_add(
                old(self).spec_stack()[old(self).spec_stack().len() - 2].view(),
                old(self).spec_stack()[old(self).spec_stack().len() - 1].view(),
                false,
            ) == super::il_type::BinaryOutcomeView::Value(
                final(self).spec_stack()[final(self).spec_stack().len() - 1].view(),
            ) && final(self).spec_stack().len() == old(self).spec_stack().len() - 1,
            outcome is Continue && kind == 1 ==> old(self).spec_stack().len() >= 2
                && ILType::spec_add(
                old(self).spec_stack()[old(self).spec_stack().len() - 2].view(),
                old(self).spec_stack()[old(self).spec_stack().len() - 1].view(),
                true,
            ) == super::il_type::BinaryOutcomeView::Value(
                final(self).spec_stack()[final(self).spec_stack().len() - 1].view(),
            ) && final(self).spec_stack().len() == old(self).spec_stack().len() - 1,
            final(self).spec_heaps_same(old(self)),
            old(self).spec_depth_ok() && old(self).spec_has_values(2) ==> final(self).spec_binary_effect(old(self), outcome, kind, rip as int),
            old(self).spec_refs_ok() ==> final(self).spec_refs_ok(),
    {
        let b: ILType = match self.pop() {
            Ok(v) => v,
            Err(f) => {
                return Outcome::Fault(f);
            },
        };
        let a: ILType = match self.pop() {
            Ok(v) => v,
            Err(f) => {
                return Outcome::Fault(f);
            },
        };
        proof {
            assert(self.spec_stack() =~= old(self).spec_stack().subrange(
                0,
                old(self).spec_stack().len() - 2,
            ));
        }
        if kind <= 1 {
            let result = if kind == 0 {
                a.add(b)
            } else {
                a.sub(b)
            };
            match result {
                super::il_type::BinaryOutcome::Value(v) => {
                    let outcome = self.op_push(v, rip);
                    outcome
                },
                super::il_type::BinaryOutcome::Float { wide, lhs, rhs } => {
                    self.set_rip(rip);
                    Outcome::FloatBinary { subtract: kind == 1, wide, lhs, rhs }
                },
                super::il_type::BinaryOutcome::Invalid => Outcome::Fault(Fault::InvalidOperation),
            }
        } else {
            let result: Option<ILType> = if kind == 2 {
                a.bitand(b)
            } else if kind == 3 {
                a.bitor(b)
            } else {
                a.bitxor(b)
            };
            match result {
                Some(v) => self.op_push(v, rip),
                None => Outcome::Fault(Fault::InvalidOperation),
            }
        }
    }

    /// What a comparison puts on the operand stack: one where it holds, else zero.
    /// Kind 0 asks whether the values are equal, kind 1 whether the first is
    /// greater, every other kind whether it is less.
    pub open spec fn spec_compare_result(kind: u8, a: ILTypeView, b: ILTypeView) -> Option<i32> {
        if kind == 0 {
            Some(
                if ILType::spec_equals(a, b) {
                    1i32
                } else {
                    0i32
                },
            )
        } else {
            match ILType::spec_compare(a, b) {
                super::il_type::CompareOutcome::Invalid => None,
                super::il_type::CompareOutcome::Greater => Some(
                    if kind == 1 {
                        1i32
                    } else {
                        0i32
                    },
                ),
                super::il_type::CompareOutcome::Less => Some(
                    if kind == 1 {
                        0i32
                    } else {
                        1i32
                    },
                ),
                _ => Some(0i32),
            }
        }
    }

    fn op_compare(&mut self, kind: u8, rip: usize) -> (outcome: Outcome)
        requires
            old(self).spec_frames().len() > 0,
        ensures
            final(self).spec_step_laws(old(self), outcome),
            !(outcome is LoadAssembly),
            outcome is Continue ==> old(self).spec_stack().len() >= 2 && final(self).spec_stack().len() == old(self).spec_stack().len() - 1
                && Interpreter::spec_compare_result(
                kind,
                old(self).spec_stack()[old(self).spec_stack().len() - 2].view(),
                old(self).spec_stack()[old(self).spec_stack().len() - 1].view(),
            ) == Some(
                final(self).spec_stack()[final(self).spec_stack().len() - 1].view()->Val_0->Int32_0,
            ),
            final(self).spec_heaps_same(old(self)),
            old(self).spec_depth_ok() && old(self).spec_has_values(2) ==> match Interpreter::spec_compare_result(
                kind,
                old(self).spec_stack()[old(self).spec_stack().len() - 2].view(),
                old(self).spec_stack()[old(self).spec_stack().len() - 1].view(),
            ) {
                Some(v) => outcome is Continue && final(self).spec_replaced(
                    old(self),
                    2,
                    ILTypeView::Val(ILValType::Int32(v)),
                ) && final(self).spec_went_on(old(self), rip as int) && final(self).spec_slots_same(old(self)),
                None => outcome == Outcome::Fault(Fault::InvalidOperation),
            },
            old(self).spec_refs_ok() ==> final(self).spec_refs_ok(),
    {
        let v2: ILType = match self.pop() {
            Ok(v) => v,
            Err(f) => {
                return Outcome::Fault(f);
            },
        };
        let v1: ILType = match self.pop() {
            Ok(v) => v,
            Err(f) => {
                return Outcome::Fault(f);
            },
        };
        proof {
            assert(self.spec_stack() =~= old(self).spec_stack().subrange(
                0,
                old(self).spec_stack().len() - 2,
            ));
        }
        let holds: bool = if kind == 0 {
            v1.equals(&v2)
        } else {
            match v1.compare(&v2) {
                super::il_type::CompareOutcome::Invalid => {
                    return Outcome::Fault(Fault::InvalidOperation);
                },
                super::il_type::CompareOutcome::Greater => kind == 1,
                super::il_type::CompareOutcome::Less => kind != 1,
                _ => false,
            }
        };
        let value: i32 = if holds {
            1
        } else {
            0
        };
        self.op_push(ILType::Val(ILValType::Int32(value)), rip)
    }

    /// What a branch to `target` does: the call goes on there, and nothing else
    /// changes; a target that is no place at all faults.
    pub open spec fn spec_branch_law(&self, before: &Interpreter, outcome: Outcome, target: int) -> bool {
        if 0 <= target <= usize::MAX {
            &&& outcome is Continue
            &&& self.spec_stack() == before.spec_stack()
            &&& self.spec_went_on(before, target)
            &&& self.spec_slots_same(before)
            &&& self.spec_heaps_same(before)
        } else {
            outcome == Outcome::Fault(Fault::CodeOutOfBounds)
        }
    }

    /// What a switch with `n` targets does, whose table starts at `table_start` of
    /// the code `code`: the top value of the operand stack is taken off; where it
    /// is below `n`, the call goes on at the offset that the table holds for it,
    /// counted from the end of the table, else at the end of the table.
    pub open spec fn spec_switch_law(
        &self,
        before: &Interpreter,
        outcome: Outcome,
        code: Seq<u8>,
        n: u32,
        table_start: int,
    ) -> bool {
        let top = before.spec_stack_top();
        let end = Interpreter::spec_switch_end(table_start, n);
        if !before.spec_has_values(1) {
            outcome == Outcome::Fault(Fault::StackUnderflow)
        } else if !(top is Val) {
            outcome == Outcome::Fault(Fault::InvalidValue)
        } else if end > usize::MAX {
            outcome == Outcome::Fault(Fault::CodeOutOfBounds)
        } else {
            let index = top->Val_0.spec_to_u32();
            let target = if index < n {
                end + Interpreter::spec_i32(spec_u32_le(code, table_start + 4 * index) as u32)
            } else {
                end
            };
            if (index < n && table_start + 4 * index + 4 > code.len()) || target < 0 || target
                > usize::MAX {
                outcome == Outcome::Fault(Fault::CodeOutOfBounds)
            } else {
                &&& outcome is Continue
                &&& self.spec_popped(before, 1)
                &&& self.spec_went_on(before, target)
                &&& self.spec_slots_same(before)
                &&& self.spec_heaps_same(before)
            }
        }
    }

    /// Goes on at `offset` bytes from `rip`.
    fn op_branch(&mut self, offset: i32, rip: usize) -> (outcome: Outcome)
        requires
            old(self).spec_frames().len() > 0,
        ensures
            final(self).spec_step_laws(old(self), outcome),
            final(self).spec_branch_law(old(self), outcome, rip + offset),
            !(outcome is LoadAssembly),
            final(self).spec_stack() == old(self).spec_stack(),
            final(self).spec_frames().len() == old(self).spec_frames().len(),
            outcome is Continue ==> final(self).spec_top().rip == rip + offset,
            outcome is Continue || outcome == Outcome::Fault(Fault::CodeOutOfBounds),
            outcome is Continue <==> 0 <= rip + offset <= usize::MAX,
            final(self).spec_heaps_same(old(self)),
            outcome is Continue ==> final(self).spec_went_on(old(self), rip + offset) && final(self).spec_slots_same(old(self)),
            old(self).spec_refs_ok() ==> final(self).spec_refs_ok(),
    {
        match Interpreter::branch_target(rip, offset) {
            Some(target) => {
                self.set_rip(target);
                Outcome::Continue
            },
            None => Outcome::Fault(Fault::CodeOutOfBounds),
        }
    }

    /// Takes the top value off the operand stack and goes on at `offset` bytes
    /// from `rip` where the value counts as false, or, where `on_false` does not
    /// hold, where it does not; else at `rip`.
    fn op_branch_if(&mut self, on_false: bool, offset: i32, rip: usize) -> (outcome: Outcome)
        requires
            old(self).spec_frames().len() > 0,
        ensures
            final(self).spec_step_laws(old(self), outcome),
            !(outcome is LoadAssembly),
            outcome is Continue ==> old(self).spec_stack().len() > 0 && final(self).spec_stack()
                == old(self).spec_stack().drop_last() && final(self).spec_top().rip == (
            if ILType::spec_is_false_type(
                old(self).spec_stack()[old(self).spec_stack().len() - 1].view(),
            ) == on_false {
                rip + offset
            } else {
                rip as int
            }),
            outcome is Continue ==> final(self).spec_branch_if_effect(
                old(self),
                on_false,
                offset as int,
                rip as int,
            ),
            outcome is Continue || outcome is Fault,
            outcome is Continue <==> Interpreter::spec_branch_if_ok(
                old(self),
                on_false,
                offset as int,
                rip as int,
            ),
            old(self).spec_refs_ok() ==> final(self).spec_refs_ok(),
    {
        let value: ILType = match self.pop() {
            Ok(v) => v,
            Err(f) => {
                return Outcome::Fault(f);
            },
        };
        proof {
            assert(self.spec_stack() =~= old(self).spec_stack().subrange(
                0,
                old(self).spec_stack().len() - 1,
            ));
        }
        if value.is_false_type() == on_false {
            self.op_branch(offset, rip)
        } else {
            self.set_rip(rip);
            Outcome::Continue
        }
    }

    /// The switch whose table of `n` offsets starts at `table_start` in the code of
    /// the assembly at `assembly_index`: takes an index off the operand stack, and
    /// goes on behind the table where the index is `n` or more, else as many bytes
    /// from there as the offset at that index says.
    fn op_switch(&mut self, assembly_index: usize, n: u32, table_start: usize) -> (outcome: Outcome)
        requires
            old(self).spec_frames().len() > 0,
            assembly_index < old(self).spec_assemblies().len(),
        ensures
            final(self).spec_step_laws(old(self), outcome),
            final(self).spec_switch_law(
                old(self),
                outcome,
                old(self).spec_code(assembly_index as int),
                n,
                table_start as int,
            ),
            !(outcome is LoadAssembly),
            final(self).spec_frames().len() == old(self).spec_frames().len(),
            outcome is Continue ==> {
                let top = old(self).spec_stack()[old(self).spec_stack().len() - 1].view();
                let end = Interpreter::spec_switch_end(table_start as int, n);
                &&& old(self).spec_stack().len() > 0
                &&& top is Val
                &&& final(self).spec_stack() == old(self).spec_stack().drop_last()
                &&& final(self).spec_top().rip == (if top->Val_0.spec_to_u32() < n {
                    end + Interpreter::spec_i32(
                        spec_u32_le(
                            old(self).spec_code(assembly_index as int),
                            table_start + 4 * top->Val_0.spec_to_u32(),
                        ) as u32,
                    )
                } else {
                    end
                })
            },
            old(self).spec_refs_ok() ==> final(self).spec_refs_ok(),
    {
        let value: ILType = match self.pop() {
            Ok(v) => v,
            Err(f) => {
                return Outcome::Fault(f);
            },
        };
        let index: u32 = match value {
            ILType::Val(v) => v.to_u32(),
            _ => {
                return Outcome::Fault(Fault::InvalidValue);
            },
        };
        let size: u64 = 4 * (n as u64);
        if size > (usize::MAX - table_start) as u64 {
            return Outcome::Fault(Fault::CodeOutOfBounds);
        }
        let end: usize = table_start + size as usize;
        if index < n {
            let mut pos: usize = table_start + 4 * (index as usize);
            let raw: u32 = match self.code_u32(assembly_index, &mut pos) {
                Ok(v) => v,
                Err(f) => {
                    return Outcome::Fault(f);
                },
            };
            self.op_branch(Interpreter::as_i32(raw), end)
        } else {
            self.set_rip(end);
            proof {
                assert(self.spec_stack() =~= old(self).spec_stack().subrange(
                    0,
                    old(self).spec_stack().len() - 1,
                ));
            }
            Outcome::Continue
        }
    }

    /// Takes a primitive value off the operand stack and puts its conversion to
    /// an unsigned number of the size of a pointer there.
    fn op_conv_u(&mut self, rip: usize) -> (outcome: Outcome)
        requires
            old(self).spec_frames().len() > 0,
        ensures
            final(self).spec_step_laws(old(self), outcome),
            !(outcome is LoadAssembly),
            final(self).spec_heaps_same(old(self)),
            outcome is Continue ==> old(self).spec_has_values(1) && old(self).spec_stack_top()
                is Val && final(self).spec_replaced(
                old(self),
                1,
                ILTypeView::Val(
                    ILValType::Isize(
                        Interpreter::spec_as_isize(old(self).spec_stack_top()->Val_0.spec_to_usize()),
                    ),
                ),
            ) && final(self).spec_went_on(old(self), rip as int),
            outcome is Continue || outcome is Fault,
            old(self).spec_depth_ok() ==> (outcome is Continue <==> old(self).spec_has_values(1)
                && old(self).spec_stack_top() is Val),
            old(self).spec_refs_ok() ==> final(self).spec_refs_ok(),
    {
        let value: ILType = match self.pop() {
            Ok(v) => v,
            Err(f) => {
                return Outcome::Fault(f);
            },
        };
        match value {
            ILType::Val(v) => {
                let wide: usize = v.to_usize();
                let signed: isize = if wide <= isize::MAX as usize {
                    wide as isize
                } else {
                    let low: usize = wide - (isize::MAX as usize) - 1;
                    (low as isize) + isize::MIN
                };
                self.op_push(ILType::Val(ILValType::Isize(signed)), rip)
            },
            _ => Outcome::Fault(Fault::InvalidValue),
        }
    }

    /// Takes a size off the operand stack and puts a native pointer to as many
    /// fresh bytes there.
    fn op_localloc(&mut self, rip: usize) -> (outcome: Outcome)
        requires
            old(self).spec_frames().len() > 0,
        ensures
            final(self).spec_step_laws(old(self), outcome),
            !(outcome is LoadAssembly),
            final(self).spec_heaps_same(old(self)),
            outcome is Continue ==> old(self).spec_has_values(1) && old(self).spec_stack_top()
                is Val && final(self).spec_replaced(
                old(self),
                1,
                ILTypeView::NPtr(
                    Some(
                        Seq::new(
                            old(self).spec_stack_top()->Val_0.spec_to_usize() as nat,
                            |i: int| 0u8,
                        ),
                    ),
                    0,
                ),
            ) && final(self).spec_went_on(old(self), rip as int),
            outcome is Continue || outcome is Fault,
            old(self).spec_depth_ok() ==> (outcome is Continue <==> old(self).spec_has_values(1)
                && old(self).spec_stack_top() is Val),
            old(self).spec_refs_ok() ==> final(self).spec_refs_ok(),
    {
        let value: ILType = match self.pop() {
            Ok(v) => v,
            Err(f) => {
                return Outcome::Fault(f);
            },
        };
        match value {
            ILType::Val(v) => {
                let size: usize = v.to_usize();
                self.op_push(ILType::NPtr(super::il_type::ILNPtr::new(size)), rip)
            },
            _ => Outcome::Fault(Fault::InvalidValue),
        }
    }

    /// Puts the string that `token` names in the user-string heap of the assembly
    /// at `assembly_index` into the string heap, and a reference to it on the
    /// operand stack.
    fn op_ldstr(&mut self, assembly_index: usize, token: u32, rip: usize) -> (outcome: Outcome)
        requires
            old(self).spec_frames().len() > 0,
        ensures
            final(self).spec_step_laws(old(self), outcome),
            !(outcome is LoadAssembly),
            outcome is Continue ==> final(self).spec_strings().len() == old(self).spec_strings().len() + 1 && final(self).spec_stack().len() == old(self).spec_stack().len() + 1 && final(self).spec_stack()[old(self).spec_stack().len() as int].view() == ILTypeView::Ref(
                ILRefType::String(old(self).spec_strings().len() as usize),
            ),
            final(self).spec_objects() == old(self).spec_objects(),
            final(self).spec_statics() == old(self).spec_statics(),
            outcome is Continue ==> {
                let offset = spec_rid(token) as int;
                let heap = old(self).spec_assemblies()[assembly_index as int].metadata.us_stream.bytes();
                &&& assembly_index < old(self).spec_assemblies().len()
                &&& final(self).spec_strings() == old(self).spec_strings().push(
                    final(self).spec_strings()[old(self).spec_strings().len() as int],
                )
                &&& super::metadata::blob_stream::spec_blob_error(heap, offset).is_none()
                &&& final(self).spec_strings()[old(self).spec_strings().len() as int]@ == (
                if offset == 0 {
                    Seq::<char>::empty()
                } else {
                    super::metadata::us_stream::spec_utf16_lossy(
                        super::metadata::us_stream::spec_utf16_units(
                            super::metadata::blob_stream::spec_blob(heap, offset),
                        ),
                    )
                })
                &&& final(self).spec_pushed(
                    old(self),
                    ILTypeView::Ref(ILRefType::String(old(self).spec_strings().len() as usize)),
                )
                &&& final(self).spec_went_on(old(self), rip as int)
                &&& final(self).spec_slots_same(old(self))
            },
            outcome is Continue || outcome is Fault,
            assembly_index < old(self).spec_assemblies().len() ==> (outcome is Continue
                <==> old(self).spec_has_room() && super::metadata::blob_stream::spec_blob_error(
                old(self).spec_assemblies()[assembly_index as int].metadata.us_stream.bytes(),
                spec_rid(token) as int,
            ).is_none()),
            old(self).spec_refs_ok() ==> final(self).spec_refs_ok(),
    {
        let string: String = match self.assemblies.index_get(assembly_index) {
            Some(assembly) => match assembly.metadata.get_us_string(token) {
                Ok(s) => s,
                Err(_) => {
                    return Outcome::Fault(Fault::InvalidToken);
                },
            },
            None => {
                return Outcome::Fault(Fault::InvalidIndex);
            },
        };
        let index: usize = self.strings.len();
        self.strings.push(string);
        proof {
            if old(self).spec_refs_ok() {
                assert forall|k: int| 0 <= k < self.spec_objects().len() implies #[trigger]
                    self.spec_objects()[k] == old(self).spec_objects()[k] by {}
                self.lemma_refs_from(old(self));
            }
        }
        self.op_push(ILType::Ref(ILRefType::String(index)), rip)
    }

    /// Takes a value off the operand stack, puts a box of the type `token` that
    /// holds it into the object heap, and a reference to the box on the stack.
    fn op_box(&mut self, token: u32, rip: usize) -> (outcome: Outcome)
        requires
            old(self).spec_frames().len() > 0,
        ensures
            final(self).spec_step_laws(old(self), outcome),
            !(outcome is LoadAssembly),
            outcome is Continue ==> old(self).spec_stack().len() > 0 && final(self).spec_objects().len() == old(self).spec_objects().len() + 1 && final(self).spec_objects()[old(self).spec_objects().len() as int].spec_origin() == token
                && final(self).spec_objects()[old(self).spec_objects().len() as int].spec_box_value() == Some(
                old(self).spec_stack()[old(self).spec_stack().len() - 1],
            ) && final(self).spec_stack().len() == old(self).spec_stack().len() && final(self).spec_stack()[old(self).spec_stack().len() - 1].view() == ILTypeView::Ref(
                ILRefType::Object(old(self).spec_objects().len() as usize),
            ),
            final(self).spec_strings() == old(self).spec_strings(),
            final(self).spec_statics() == old(self).spec_statics(),
            outcome is Continue ==> {
                &&& old(self).spec_has_values(1)
                &&& final(self).spec_objects() == old(self).spec_objects().push(
                    final(self).spec_objects()[old(self).spec_objects().len() as int],
                )
                &&& final(self).spec_objects()[old(self).spec_objects().len() as int].spec_type_token()
                    == token
                &&& final(self).spec_replaced(
                    old(self),
                    1,
                    ILTypeView::Ref(ILRefType::Object(old(self).spec_objects().len() as usize)),
                )
                &&& final(self).spec_went_on(old(self), rip as int)
                &&& final(self).spec_slots_same(old(self))
            },
            outcome is Continue || outcome is Fault,
            old(self).spec_depth_ok() ==> (outcome is Continue <==> old(self).spec_has_values(1)),
            old(self).spec_refs_ok() ==> final(self).spec_refs_ok(),
    {
        let value: ILType = match self.pop() {
            Ok(v) => v,
            Err(f) => {
                return Outcome::Fault(f);
            },
        };
        let index: usize = self.objects.len();
        let ghost mid = *self;
        self.objects.push(Object::new_box(token, value));
        proof {
            if old(self).spec_refs_ok() {
                assert forall|k: int| 0 <= k < mid.spec_objects().len() implies #[trigger]
                    self.spec_objects()[k] == mid.spec_objects()[k] by {}
                self.lemma_refs_from(&mid);
            }
        }
        self.op_push(ILType::Ref(ILRefType::Object(index)), rip)
    }

    /// What opening a box gives: the value of the box where the reference names a
    /// box that was made of the type `token`; a fault where the reference is null,
    /// names no object, or names an object made of another type.
    pub open spec fn spec_unbox(objects: Seq<Object>, boxed: ILTypeView, token: u32) -> Result<
        ILType,
        Fault,
    > {
        match boxed {
            ILTypeView::Ref(ILRefType::Object(i)) => if i >= objects.len() {
                Err(Fault::InvalidIndex)
            } else if objects[i as int].spec_origin() != token {
                Err(Fault::UnboxTypeMismatch)
            } else {
                match objects[i as int].spec_box_value() {
                    Some(v) => Ok(v),
                    None => Err(Fault::InvalidValue),
                }
            },
            ILTypeView::Ref(ILRefType::Null) => Err(Fault::NullReference),
            _ => Err(Fault::InvalidValue),
        }
    }

    /// Opens the box that `boxed` names as a box of the type `token`.
    pub fn unbox(&self, boxed: &ILType, token: u32) -> (result: Result<ILType, Fault>)
        ensures
            match result {
                Ok(v) => Interpreter::spec_unbox(self.spec_objects(), boxed.view(), token).is_ok()
                    && v.view() == Interpreter::spec_unbox(
                    self.spec_objects(),
                    boxed.view(),
                    token,
                ).unwrap().view(),
                Err(f) => Interpreter::spec_unbox(self.spec_objects(), boxed.view(), token) == Err::<
                    ILType,
                    Fault,
                >(f),
            },
            self.spec_refs_ok() && result is Ok ==> Interpreter::spec_value_ok(
                result->Ok_0.view(),
                self.spec_objects().len() as int,
                self.spec_strings().len() as int,
            ),
    {
        match boxed {
            ILType::Ref(ILRefType::Object(i)) => {
                if *i >= self.objects.len() {
                    return Err(Fault::InvalidIndex);
                }
                let object: &Object = &self.objects[*i];
                if object.get_type() != token {
                    return Err(Fault::UnboxTypeMismatch);
                }
                match object.get_box_value() {
                    Some(v) => Ok(v.duplicate()),
                    None => Err(Fault::InvalidValue),
                }
            },
            ILType::Ref(ILRefType::Null) => Err(Fault::NullReference),
            _ => Err(Fault::InvalidValue),
        }
    }

    fn op_unbox_any(&mut self, token: u32, rip: usize) -> (outcome: Outcome)
        requires
            old(self).spec_frames().len() > 0,
        ensures
            final(self).spec_step_laws(old(self), outcome),
            !(outcome is LoadAssembly),
            old(self).spec_depth_ok() && old(self).spec_stack().len() > old(self).spec_top().stack_base ==> match Interpreter::spec_unbox(
                old(self).spec_objects(),
                old(self).spec_stack()[old(self).spec_stack().len() - 1].view(),
                token,
            ) {
                Ok(v) => outcome is Continue && final(self).spec_stack().len() == old(self).spec_stack().len() && final(self).spec_stack()[old(self).spec_stack().len()
                    - 1].view() == v.view() && final(self).spec_top().rip == rip,
                Err(f) => outcome == Outcome::Fault(f),
            },
            outcome is Continue ==> final(self).spec_replaced(
                old(self),
                1,
                final(self).spec_stack_top(),
            ) && final(self).spec_went_on(old(self), rip as int) && final(self).spec_slots_same(
                old(self),
            ) && final(self).spec_heaps_same(old(self)),
            old(self).spec_refs_ok() ==> final(self).spec_refs_ok(),
    {
        let boxed: ILType = match self.pop() {
            Ok(v) => v,
            Err(f) => {
                return Outcome::Fault(f);
            },
        };
        match self.unbox(&boxed, token) {
            Ok(value) => {
                let outcome = self.op_push(value, rip);
                outcome
            },
            Err(f) => Outcome::Fault(f),
        }
    }

    /// What reading the field `token` through the reference `this` gives.
    pub open spec fn spec_load_field(objects: Seq<Object>, this: ILTypeView, token: u32) -> Result<
        ILType,
        Fault,
    > {
        match this {
            ILTypeView::Ref(ILRefType::Null) => Err(Fault::NullReference),
            ILTypeView::Ref(ILRefType::String(_)) => Err(Fault::Unsupported),
            ILTypeView::Ref(ILRefType::Object(i)) => if i >= objects.len() {
                Err(Fault::InvalidIndex)
            } else {
                match objects[i as int].spec_field_index(super::object::spec_field_rid(token)) {
                    Some(place) => Ok(objects[i as int].spec_field_values()[place as int]),
                    None => Err(Fault::InvalidIndex),
                }
            },
            _ => Err(Fault::InvalidValue),
        }
    }

    /// Reads the field `token` of the object that `this` names.
    pub fn load_field(&self, this: &ILType, token: u32) -> (result: Result<ILType, Fault>)
        ensures
            match result {
                Ok(v) => Interpreter::spec_load_field(self.spec_objects(), this.view(), token).is_ok()
                    && v.view() == Interpreter::spec_load_field(
                    self.spec_objects(),
                    this.view(),
                    token,
                ).unwrap().view(),
                Err(f) => Interpreter::spec_load_field(self.spec_objects(), this.view(), token)
                    == Err::<ILType, Fault>(f),
            },
            self.spec_refs_ok() && result is Ok ==> Interpreter::spec_value_ok(
                result->Ok_0.view(),
                self.spec_objects().len() as int,
                self.spec_strings().len() as int,
            ),
    {
        match this {
            ILType::Ref(ILRefType::Null) => Err(Fault::NullReference),
            ILType::Ref(ILRefType::String(_)) => Err(Fault::Unsupported),
            ILType::Ref(ILRefType::Object(i)) => {
                if *i >= self.objects.len() {
                    return Err(Fault::InvalidIndex);
                }
                proof {
                    if self.spec_refs_ok() {
                        assert(Interpreter::spec_values_ok(
                            self.spec_objects()[*i as int].spec_field_values(),
                            self.spec_objects().len() as int,
                            self.spec_strings().len() as int,
                        ));
                    }
                }
                match self.objects[*i].get_field(token) {
                    Some(v) => Ok(v.duplicate()),
                    None => Err(Fault::InvalidIndex),
                }
            },
            _ => Err(Fault::InvalidValue),
        }
    }

    fn op_ldfld(&mut self, token: u32, rip: usize) -> (outcome: Outcome)
        requires
            old(self).spec_frames().len() > 0,
        ensures
            final(self).spec_step_laws(old(self), outcome),
            !(outcome is LoadAssembly),
            old(self).spec_depth_ok() && old(self).spec_stack().len() > old(self).spec_top().stack_base ==> match Interpreter::spec_load_field(
                old(self).spec_objects(),
                old(self).spec_stack()[old(self).spec_stack().len() - 1].view(),
                token,
            ) {
                Ok(v) => outcome is Continue && final(self).spec_stack().len() == old(self).spec_stack().len() && final(self).spec_stack()[old(self).spec_stack().len()
                    - 1].view() == v.view() && final(self).spec_top().rip == rip
                    && final(self).spec_frames().len() == old(self).spec_frames().len(),
                Err(f) => outcome == Outcome::Fault(f),
            },
            outcome is Continue ==> final(self).spec_replaced(
                old(self),
                1,
                final(self).spec_stack_top(),
            ) && final(self).spec_went_on(old(self), rip as int) && final(self).spec_slots_same(
                old(self),
            ) && final(self).spec_heaps_same(old(self)),
            old(self).spec_refs_ok() ==> final(self).spec_refs_ok(),
    {
        let this: ILType = match self.pop() {
            Ok(v) => v,
            Err(f) => {
                return Outcome::Fault(f);
            },
        };
        match self.load_field(&this, token) {
            Ok(value) => self.op_push(value, rip),
            Err(f) => Outcome::Fault(f),
        }
    }

    /// What storing into the field `token` does, where the executing method has
    /// two values on the operand stack, the reference below the value: the field
    /// of the object that the reference names holds the value, nothing else of
    /// the heap has changed, both values are off the stack, and the call goes on
    /// at `next`. A null reference faults, and so does a reference to a string,
    /// a value that is no reference, and an object without the field.
    pub open spec fn spec_store_law(
        &self,
        before: &Interpreter,
        outcome: Outcome,
        token: u32,
        next: int,
    ) -> bool {
        let len = before.spec_stack().len() as int;
        let value = before.spec_stack()[len - 1];
        match before.spec_stack()[len - 2].view() {
            ILTypeView::Ref(ILRefType::Null) => outcome == Outcome::Fault(Fault::NullReference),
            ILTypeView::Ref(ILRefType::String(_)) => outcome == Outcome::Fault(Fault::Unsupported),
            ILTypeView::Ref(ILRefType::Object(i)) => if i >= before.spec_objects().len() {
                outcome == Outcome::Fault(Fault::InvalidIndex)
            } else {
                match before.spec_objects()[i as int].spec_field_index(
                    super::object::spec_field_rid(token),
                ) {
                    None => outcome == Outcome::Fault(Fault::InvalidIndex),
                    Some(place) => {
                        &&& outcome is Continue
                        &&& self.spec_objects().len() == before.spec_objects().len()
                        &&& forall|k: int|
                            0 <= k < before.spec_objects().len() && k != i
                                ==> #[trigger] self.spec_objects()[k] == before.spec_objects()[k]
                        &&& self.spec_objects()[i as int].spec_field_rids()
                            == before.spec_objects()[i as int].spec_field_rids()
                        &&& self.spec_objects()[i as int].spec_field_values()
                            == before.spec_objects()[i as int].spec_field_values().update(
                            place as int,
                            value,
                        )
                        &&& self.spec_objects()[i as int].spec_type_token()
                            == before.spec_objects()[i as int].spec_type_token()
                        &&& self.spec_stack() == before.spec_stack().subrange(0, len - 2)
                        &&& self.spec_frames().len() == before.spec_frames().len()
                        &&& self.spec_top().rip == next
                        &&& self.spec_strings() == before.spec_strings()
                        &&& self.spec_statics() == before.spec_statics()
                    },
                }
            },
            _ => outcome == Outcome::Fault(Fault::InvalidValue),
        }
    }

    /// Takes a value and a reference off the operand stack, and gives the field
    /// `token` of the object that the reference names the value.
    fn op_stfld(&mut self, token: u32, rip: usize) -> (outcome: Outcome)
        requires
            old(self).spec_frames().len() > 0,
        ensures
            final(self).spec_step_laws(old(self), outcome),
            !(outcome is LoadAssembly),
            old(self).spec_stack().len() >= old(self).spec_top().stack_base + 2 && old(self).spec_stack()[old(self).spec_stack().len() - 2].view() == ILTypeView::Ref(
                ILRefType::Null,
            ) ==> outcome == Outcome::Fault(Fault::NullReference),
            outcome is Continue ==> old(self).spec_stack().len() >= 2 && final(self).spec_stack().len() == old(self).spec_stack().len() - 2,
            old(self).spec_stack().len() >= old(self).spec_top().stack_base + 2 ==> final(self).spec_store_law(
                old(self),
                outcome,
                token,
                rip as int,
            ),
            old(self).spec_refs_ok() ==> final(self).spec_refs_ok(),
    {
        let value: ILType = match self.pop() {
            Ok(v) => v,
            Err(f) => {
                return Outcome::Fault(f);
            },
        };
        let this: ILType = match self.pop() {
            Ok(v) => v,
            Err(f) => {
                return Outcome::Fault(f);
            },
        };
        let ghost mid = *self;
        match this {
            ILType::Ref(ILRefType::Null) => Outcome::Fault(Fault::NullReference),
            ILType::Ref(ILRefType::String(_)) => Outcome::Fault(Fault::Unsupported),
            ILType::Ref(ILRefType::Object(i)) => {
                if i >= self.objects.len() {
                    return Outcome::Fault(Fault::InvalidIndex);
                }
                if !self.objects[i].set_field(token, value) {
                    return Outcome::Fault(Fault::InvalidIndex);
                }
                proof {
                    if old(self).spec_refs_ok() {
                        let o = self.spec_objects().len() as int;
                        let t = self.spec_strings().len() as int;
                        assert(Interpreter::spec_values_ok(
                            mid.spec_objects()[i as int].spec_field_values(),
                            o,
                            t,
                        ));
                        let place = mid.spec_objects()[i as int].spec_field_index(
                            super::object::spec_field_rid(token),
                        ).unwrap() as int;
                        assert forall|j: int|
                            0 <= j < self.spec_objects()[i as int].spec_field_values().len() implies Interpreter::spec_value_ok(
                            (#[trigger] self.spec_objects()[i as int].spec_field_values()[j]).view(),
                            o,
                            t,
                        ) by {
                            if j != place {
                                assert(self.spec_objects()[i as int].spec_field_values()[j]
                                    == mid.spec_objects()[i as int].spec_field_values()[j]);
                            }
                        }
                        assert forall|k: int| 0 <= k < self.spec_objects().len() && k != i implies #[trigger]
                            self.spec_objects()[k] == mid.spec_objects()[k] by {}
                        self.lemma_refs_from(&mid);
                    }
                    assert(self.spec_stack() =~= old(self).spec_stack().subrange(
                        0,
                        old(self).spec_stack().len() - 2,
                    ));
                    assert forall|k: int| 0 <= k < mid.spec_objects().len() implies (
                    #[trigger] self.spec_objects()[k]).spec_origin()
                        == mid.spec_objects()[k].spec_origin() by {}
                }
                self.set_rip(rip);
                Outcome::Continue
            },
            _ => Outcome::Fault(Fault::InvalidValue),
        }
    }

    /// The method that the call `frame` executes.
    pub open spec fn spec_method_of(&self, frame: Frame) -> super::method::Method {
        self.spec_assemblies()[frame.assembly_index as int].methods@[frame.method_index as int]
    }

    /// A call of a method with code was entered: the new call stands at the first
    /// instruction of the method, with the values `given` and the values that
    /// were taken off the operand stack as its arguments, the value that was put
    /// there first coming first. The caller, if there is one, stands at
    /// `return_rip`.
    pub open spec fn spec_entered(
        &self,
        before: &Interpreter,
        return_rip: Option<usize>,
        given: Seq<ILType>,
    ) -> bool {
        let callers = before.spec_frames().len() as int;
        let frame = self.spec_top();
        let method = self.spec_method_of(frame);
        &&& self.spec_frames().len() == callers + 1
        &&& frame.assembly_index < self.spec_assemblies().len()
        &&& frame.method_index < self.spec_assemblies()[frame.assembly_index as int].methods@.len()
        &&& method.rva != 0
        &&& method.impl_flags & 0x1000 == 0
        &&& frame.rip == method.code_position
        &&& frame.max_stack == method.max_stack
        &&& frame.stack_base == self.spec_stack().len()
        &&& frame.stack_id == before.spec_ctx().stack_id + 1
        &&& frame.params@.len() == method.param_list.count + (if method.attributes & 0x10 != 0 {
            0int
        } else {
            1int
        })
        &&& Interpreter::spec_fresh_locals(
            self.spec_assemblies()[frame.assembly_index as int],
            frame.method_index as int,
            frame.locals@,
        )
        &&& self.spec_stack().len() <= before.spec_stack().len()
        &&& self.spec_stack() == before.spec_stack().subrange(0, self.spec_stack().len() as int)
        &&& frame.params@ == given + before.spec_stack().subrange(
            self.spec_stack().len() as int,
            before.spec_stack().len() as int,
        )
        &&& match return_rip {
            Some(rip) => {
                &&& callers > 0
                &&& forall|i: int|
                    0 <= i < callers - 1 ==> self.spec_frames()[i] == before.spec_frames()[i]
                &&& self.spec_frames()[callers - 1].rip == rip
                &&& self.spec_frames()[callers - 1].params == before.spec_top().params
                &&& self.spec_frames()[callers - 1].locals == before.spec_top().locals
                &&& self.spec_frames()[callers - 1].stack_base == before.spec_top().stack_base
                &&& self.spec_frames()[callers - 1].max_stack == before.spec_top().max_stack
                &&& self.spec_frames()[callers - 1].assembly_index
                    == before.spec_top().assembly_index
                &&& self.spec_frames()[callers - 1].method_index == before.spec_top().method_index
            },
            None => forall|i: int|
                0 <= i < callers ==> self.spec_frames()[i] == before.spec_frames()[i],
        }
    }

    /// What a call did: it entered a method with code; or it called a method that
    /// the runtime implements, which either writes the top value of the operand
    /// stack as a line or does nothing.
    pub open spec fn spec_call_effect(
        &self,
        before: &Interpreter,
        outcome: Outcome,
        return_rip: Option<usize>,
        given: Seq<ILType>,
    ) -> bool {
        &&& outcome is Continue ==> self.spec_entered(before, return_rip, given) || (
        self.spec_stack() == before.spec_stack() && self.spec_frames().len()
            == before.spec_frames().len() && (match return_rip {
            Some(rip) => self.spec_went_on(before, rip as int) && self.spec_slots_same(before),
            None => self.spec_frames() == before.spec_frames(),
        }))
        &&& outcome is WriteLine ==> {
            &&& before.spec_stack().len() > 0
            &&& outcome->WriteLine_0.view() == Interpreter::spec_render(
                before.spec_objects(),
                before.spec_strings(),
                before.spec_stack_top(),
            )
            &&& self.spec_popped(before, 1)
            &&& self.spec_frames().len() == before.spec_frames().len()
            &&& match return_rip {
                Some(rip) => self.spec_went_on(before, rip as int) && self.spec_slots_same(
                    before,
                ),
                None => self.spec_frames() == before.spec_frames(),
            }
        }
        &&& !(outcome is Finished) && !(outcome is FloatBinary)
    }

    /// Which method a call of `token`, seen from the assembly at `assembly_index`,
    /// reaches. Where the token cannot be resolved the call gives what the
    /// resolution gave: the fault, or the name of the assembly that is wanted. A
    /// line is written only by the method named `WriteLine` that the runtime
    /// implements.
    pub open spec fn spec_call_target(
        &self,
        before: &Interpreter,
        outcome: Outcome,
        assembly_index: usize,
        token: u32,
        given: int,
    ) -> bool {
        match spec_method_place(
            &before.spec_registry(),
            assembly_index,
            token,
            MAX_TOKEN_HOPS as nat,
        ) {
            Found::At(method_index, target) => {
                let method = before.spec_assemblies()[target as int].methods@[method_index as int];
                &&& target < before.spec_assemblies().len()
                &&& method_index < before.spec_assemblies()[target as int].methods@.len()
                &&& !(outcome is LoadAssembly)
                &&& outcome is Continue && self.spec_frames().len() > before.spec_frames().len()
                    ==> self.spec_top().assembly_index == target && self.spec_top().method_index
                    == method_index
                &&& outcome is Continue && self.spec_frames().len() == before.spec_frames().len()
                    ==> method.impl_flags & 0x1000 != 0 && method.name@ != "WriteLine"@
                &&& outcome is WriteLine ==> method.impl_flags & 0x1000 != 0 && method.name@
                    == "WriteLine"@
                &&& Interpreter::spec_can_enter(
                    before,
                    target as int,
                    method_index as int,
                    given,
                ) ==> outcome is Continue && self.spec_frames().len() == before.spec_frames().len()
                    + 1
                &&& Interpreter::spec_can_ask(before, target as int, method_index as int)
                    ==> if method.name@ == "WriteLine"@ {
                    before.spec_stack().len() > 0 && (before.spec_frames().len() > 0
                        ==> before.spec_stack().len() > before.spec_top().stack_base)
                        ==> outcome is WriteLine
                } else {
                    outcome is Continue && self.spec_frames().len() == before.spec_frames().len()
                }
            },
            Found::Load(name) => outcome is LoadAssembly && outcome->LoadAssembly_0.name@ == name,
            Found::Fault(fault) => outcome == Outcome::Fault(fault),
        }
    }

    /// True where a call of the method at `method_index` of the assembly at
    /// `target` is owed, with `given` of its arguments at hand and the others on
    /// the operand stack: the method has code that is not the runtime's own, its
    /// local variables can be made, it has no fewer parameters than are given,
    /// the executing method has the other arguments on the operand stack, no
    /// call found fewer values there than the call before it, and the calls can
    /// still be numbered.
    pub open spec fn spec_can_enter(
        before: &Interpreter,
        target: int,
        method_index: int,
        given: int,
    ) -> bool {
        let assembly = before.spec_assemblies()[target];
        let method = assembly.methods@[method_index];
        let needed = method.param_list.count + (if method.attributes & 0x10 != 0 {
            0int
        } else {
            1int
        });
        &&& method.impl_flags & 0x1000 == 0
        &&& method.rva != 0
        &&& needed <= usize::MAX
        &&& Interpreter::spec_locals_ok(assembly, method_index)
        &&& before.spec_ctx().stack_id < usize::MAX
        &&& 0 <= given <= needed
        &&& needed - given <= before.spec_stack().len()
        &&& before.spec_frames().len() > 0 ==> before.spec_top().stack_base + needed - given
            <= before.spec_stack().len()
        &&& forall|i: int, j: int|
            0 <= i <= j < before.spec_frames().len() ==> before.spec_frames()[i].stack_base
                <= before.spec_frames()[j].stack_base
    }

    /// True where a call of the method at `method_index` of the assembly at
    /// `target` asks the runtime itself: the method is marked as implemented by
    /// the runtime, its parameters can be counted, and so can the calls.
    pub open spec fn spec_can_ask(before: &Interpreter, target: int, method_index: int) -> bool {
        let method = before.spec_assemblies()[target].methods@[method_index];
        &&& method.impl_flags & 0x1000 != 0
        &&& method.param_list.count + (if method.attributes & 0x10 != 0 {
            0int
        } else {
            1int
        }) <= usize::MAX
        &&& before.spec_ctx().stack_id < usize::MAX
    }

    /// The outcome that stands for a resolution that did not succeed.
    fn stopped(stop: Stop) -> (outcome: Outcome)
        ensures
            match stop {
                Stop::Load(name) => outcome == Outcome::LoadAssembly(name),
                Stop::Fault(f) => outcome == Outcome::Fault(f),
            },
    {
        match stop {
            Stop::Load(name) => Outcome::LoadAssembly(name),
            Stop::Fault(f) => Outcome::Fault(f),
        }
    }

    /// Starts a call of the method at `method_index` of the assembly at `target`
    /// with the arguments `params` and the local variables `locals`.
    fn enter_frame(
        &mut self,
        target: usize,
        method_index: usize,
        token: u32,
        params: Vec<ILType>,
        locals: Vec<ILType>,
        code_position: usize,
        max_stack: usize,
    )
        requires
            old(self).spec_frames().len() > 0 ==> old(self).spec_top().stack_base <= old(self).spec_stack().len(),
            forall|i: int, j: int|
                0 <= i <= j < old(self).spec_frames().len() ==> old(self).spec_frames()[i].stack_base
                    <= old(self).spec_frames()[j].stack_base,
        ensures
            final(self).spec_registry() == old(self).spec_registry(),
            final(self).spec_assemblies() == old(self).spec_assemblies(),
            forall|name: Seq<char>|
                final(self).spec_assembly_index(name) == old(self).spec_assembly_index(name),
            final(self).spec_stack() == old(self).spec_stack(),
            final(self).spec_objects() == old(self).spec_objects(),
            final(self).spec_strings() == old(self).spec_strings(),
            final(self).spec_statics() == old(self).spec_statics(),
            final(self).spec_frames().len() == old(self).spec_frames().len() + 1,
            forall|i: int|
                0 <= i < old(self).spec_frames().len() ==> final(self).spec_frames()[i] == old(self).spec_frames()[i],
            final(self).spec_top().assembly_index == target,
            final(self).spec_top().method_index == method_index,
            final(self).spec_top().rip == code_position,
            final(self).spec_top().params == params,
            final(self).spec_top().locals == locals,
            final(self).spec_top().stack_base == old(self).spec_stack().len(),
            final(self).spec_top().max_stack == max_stack,
            final(self).spec_top().stack_id == old(self).spec_ctx().stack_id,
            final(self).spec_ctx().stack_id == old(self).spec_ctx().stack_id,
            final(self).spec_depth_ok(),
            old(self).spec_refs_ok() && Interpreter::spec_values_ok(
                params@,
                old(self).spec_objects().len() as int,
                old(self).spec_strings().len() as int,
            ) && Interpreter::spec_values_ok(
                locals@,
                old(self).spec_objects().len() as int,
                old(self).spec_strings().len() as int,
            ) ==> final(self).spec_refs_ok(),
    {
        let id: usize = self.ctx.stack_id;
        let base: usize = self.stack.len();
        self.ctx.call_stack.push((target, token));
        self.ctx.assembly_index = target;
        self.frames.push(
            Frame {
                assembly_index: target,
                method_index,
                rip: code_position,
                params,
                locals,
                stack_base: base,
                max_stack,
                stack_id: id,
            },
        );
        proof {
            let n = old(self).spec_frames().len() as int;
            if old(self).spec_refs_ok() && Interpreter::spec_values_ok(
                params@,
                old(self).spec_objects().len() as int,
                old(self).spec_strings().len() as int,
            ) && Interpreter::spec_values_ok(
                locals@,
                old(self).spec_objects().len() as int,
                old(self).spec_strings().len() as int,
            ) {
                assert forall|f: int| 0 <= f < self.spec_frames().len() implies Interpreter::spec_values_ok(
                    (#[trigger] self.spec_frames()[f]).params@,
                    self.spec_objects().len() as int,
                    self.spec_strings().len() as int,
                ) && Interpreter::spec_values_ok(
                    self.spec_frames()[f].locals@,
                    self.spec_objects().len() as int,
                    self.spec_strings().len() as int,
                ) by {
                    if f < n {
                        assert(self.spec_frames()[f] == old(self).spec_frames()[f]);
                    }
                }
                self.lemma_refs_calls(old(self));
            }
            assert forall|i: int, j: int|
                0 <= i <= j < self.spec_frames().len() implies self.spec_frames()[i].stack_base
                <= self.spec_frames()[j].stack_base by {
                if j < n {
                    assert(self.spec_frames()[i] == old(self).spec_frames()[i]);
                    assert(self.spec_frames()[j] == old(self).spec_frames()[j]);
                } else if i < n {
                    assert(self.spec_frames()[i] == old(self).spec_frames()[i]);
                    assert(old(self).spec_frames()[i].stack_base <= old(self).spec_frames()[n
                        - 1].stack_base);
                }
            }
        }
    }

    /// Takes `count` values off the operand stack; the value that was put there
    /// first comes first.
    #[verifier::loop_isolation(false)]
    fn pop_arguments(&mut self, count: usize) -> (result: Result<Vec<ILType>, Fault>)
        ensures
            final(self).spec_rest_same(old(self)),
            match result {
                Ok(values) => {
                    &&& values@.len() == count
                    &&& count <= old(self).spec_stack().len()
                    &&& final(self).spec_stack() == old(self).spec_stack().subrange(
                        0,
                        old(self).spec_stack().len() - count,
                    )
                    &&& forall|i: int|
                        0 <= i < count ==> values@[i] == old(self).spec_stack()[old(self).spec_stack().len() - count + i]
                    &&& old(self).spec_frames().len() > 0 ==> old(self).spec_top().stack_base
                        + count <= old(self).spec_stack().len()
                    &&& old(self).spec_depth_ok() ==> final(self).spec_depth_ok()
                },
                Err(e) => e == Fault::StackUnderflow && final(self).spec_stack().len() <= old(self).spec_stack().len(),
            },
            result is Ok <==> count <= old(self).spec_stack().len() && (old(self).spec_frames().len()
                > 0 ==> old(self).spec_top().stack_base + count <= old(self).spec_stack().len()),
            old(self).spec_refs_ok() ==> final(self).spec_refs_ok(),
            old(self).spec_refs_ok() && result is Ok ==> Interpreter::spec_values_ok(
                result->Ok_0@,
                old(self).spec_objects().len() as int,
                old(self).spec_strings().len() as int,
            ),
    {
        let n: usize = self.frames.len();
        let len: usize = self.stack.len();
        if count > len {
            return Err(Fault::StackUnderflow);
        }
        if n > 0 {
            let base: usize = self.frames[n - 1].stack_base;
            if base > len || count > len - base {
                return Err(Fault::StackUnderflow);
            }
        }
        let mut reversed: Vec<ILType> = Vec::new();
        let mut k: usize = 0;
        while k < count
            invariant
                k <= count <= len,
                len == old(self).spec_stack().len(),
                self.spec_rest_same(old(self)),
                self.spec_stack() == old(self).spec_stack().subrange(0, len - k),
                reversed@.len() == k,
                forall|i: int| 0 <= i < k ==> reversed@[i] == old(self).spec_stack()[len - 1 - i],
            decreases count - k,
        {
            match self.stack.pop() {
                Some(v) => {
                    reversed.push(v);
                },
                None => {
                    assert(false);
                    return Err(Fault::StackUnderflow);
                },
            }
            k += 1;
            assert(self.spec_stack() =~= old(self).spec_stack().subrange(0, len - k));
        }
        let mut values: Vec<ILType> = Vec::new();
        let mut m: usize = 0;
        while m < count
            invariant
                m <= count,
                reversed@.len() == count - m,
                values@.len() == m,
                forall|i: int|
                    0 <= i < count - m ==> reversed@[i] == old(self).spec_stack()[len - 1 - i],
                forall|i: int| 0 <= i < m ==> values@[i] == old(self).spec_stack()[len - count + i],
                self.spec_stack().len() <= old(self).spec_stack().len(),
            decreases count - m,
        {
            match reversed.pop() {
                Some(v) => {
                    values.push(v);
                },
                None => {
                    assert(false);
                    return Err(Fault::StackUnderflow);
                },
            }
            m += 1;
        }
        Ok(values)
    }

    /// True where the local variables of the method at `method_index` can be
    /// made: the method has none, or the row that it names holds the signature of
    /// local variables.
    pub open spec fn spec_locals_ok(assembly: Assembly, method_index: int) -> bool {
        let rid = assembly.methods@[method_index].local_var_rid;
        rid == 0 || (rid <= assembly.standalone_sigs@.len() && assembly.standalone_sigs@[rid
            - 1].signature is Some && assembly.standalone_sigs@[rid - 1].signature->Some_0 is LocalSig)
    }

    /// True where `locals` are the local variables of a fresh call of the method
    /// at `method_index`: one for each type of the signature, with the zero value
    /// of the type.
    pub open spec fn spec_fresh_locals(
        assembly: Assembly,
        method_index: int,
        locals: Seq<ILType>,
    ) -> bool {
        let rid = assembly.methods@[method_index].local_var_rid;
        if rid == 0 {
            locals.len() == 0
        } else {
            let sig = assembly.standalone_sigs@[rid - 1].signature->Some_0->LocalSig_0;
            &&& locals.len() == sig.locals@.len()
            &&& forall|i: int|
                0 <= i < locals.len() ==> (#[trigger] locals[i]).view() == ILType::spec_zero(
                    sig.locals@[i].view(),
                )
        }
    }

    /// The zero values of the local variables of the method at `method_index`.
    fn method_locals(assembly: &Assembly, method_index: usize) -> (result: Result<
        Vec<ILType>,
        Fault,
    >)
        requires
            method_index < assembly.methods@.len(),
        ensures
            match result {
                Ok(locals) => Interpreter::spec_locals_ok(*assembly, method_index as int)
                    && Interpreter::spec_fresh_locals(*assembly, method_index as int, locals@),
                Err(f) => !Interpreter::spec_locals_ok(*assembly, method_index as int) && (f
                    == Fault::InvalidIndex || f == Fault::InvalidValue),
            },
    {
        let rid: u32 = assembly.methods[method_index].local_var_rid;
        if rid == 0 {
            return Ok(Vec::new());
        }
        if rid as usize > assembly.standalone_sigs.len() {
            return Err(Fault::InvalidIndex);
        }
        match &assembly.standalone_sigs[(rid - 1) as usize].signature {
            Some(CallingConventionSig::LocalSig(sig)) => Ok(ILType::from_type_sigs(&sig.locals)),
            _ => Err(Fault::InvalidValue),
        }
    }

    /// True where `name` is the name of the method that writes a line.
    fn is_write_line(name: &String) -> (b: bool)
        ensures
            b == (name@ == "WriteLine"@),
    {
        let wanted: String = String::from_str("WriteLine");
        name.eq(&wanted)
    }

    /// Calls the method that `token` names, seen from the assembly at
    /// `assembly_index`. The caller, if there is one, goes on at `return_rip`
    /// afterwards. The arguments are the values in `given`, if any, followed by as
    /// many values from the operand stack as the method needs beyond those.
    fn do_call(
        &mut self,
        assembly_index: usize,
        token: u32,
        return_rip: Option<usize>,
        given: Vec<ILType>,
    ) -> (outcome: Outcome)
        requires
            return_rip.is_some() ==> old(self).spec_frames().len() > 0,
        ensures
            final(self).spec_registry() == old(self).spec_registry(),
            final(self).spec_step_laws(old(self), outcome),
            final(self).spec_statics() == old(self).spec_statics(),
            final(self).spec_objects() == old(self).spec_objects(),
            final(self).spec_stack().len() <= old(self).spec_stack().len(),
            return_rip.is_none() ==> final(self).spec_frames().len() >= old(self).spec_frames().len() && forall|i: int|
                0 <= i < old(self).spec_frames().len() ==> final(self).spec_frames()[i] == old(self).spec_frames()[i],
            final(self).spec_assemblies() == old(self).spec_assemblies(),
            final(self).spec_strings() == old(self).spec_strings(),
            final(self).spec_call_effect(old(self), outcome, return_rip, given@),
            final(self).spec_call_target(
                old(self),
                outcome,
                assembly_index,
                token,
                given@.len() as int,
            ),
            outcome is Continue && final(self).spec_frames().len() > old(self).spec_frames().len()
                && super::metadata::md_token::spec_table_type(token) == 0x06 ==> final(self).spec_top().assembly_index == assembly_index && final(self).spec_top().method_index
                == spec_rid(token) - 1,
            old(self).spec_refs_ok() && Interpreter::spec_values_ok(
                given@,
                old(self).spec_objects().len() as int,
                old(self).spec_strings().len() as int,
            ) ==> final(self).spec_refs_ok(),
    {
        let resolved = get_method_index(&self.assemblies, assembly_index, token);
        let (method_index, target) = match resolved {
            Ok(found) => found,
            Err(stop) => {
                return Interpreter::stopped(stop);
            },
        };
        let assembly: &Assembly = match self.assemblies.index_get(target) {
            Some(a) => a,
            None => {
                return Outcome::Fault(Fault::InvalidIndex);
            },
        };
        let method = &assembly.methods[method_index];
        let internal: bool = method.is_internal_call();
        let write_line: bool = Interpreter::is_write_line(&method.name);
        let formal: usize = method.param_list.count as usize;
        let needed: usize = if method.is_static() {
            formal
        } else {
            if formal == usize::MAX {
                return Outcome::Fault(Fault::InvalidValue);
            }
            formal + 1
        };
        let has_code: bool = method.rva != 0;
        let code_position: usize = method.code_position;
        let max_stack: usize = method.max_stack as usize;
        let locals: Vec<ILType> = if internal {
            Vec::new()
        } else {
            match Interpreter::method_locals(assembly, method_index) {
                Ok(l) => l,
                Err(f) => {
                    return Outcome::Fault(f);
                },
            }
        };
        if self.ctx.stack_id == usize::MAX {
            return Outcome::Fault(Fault::Unsupported);
        }
        match return_rip {
            Some(rip) => {
                self.set_rip(rip);
            },
            None => {},
        }
        self.ctx.stack_id = self.ctx.stack_id + 1;
        if internal {
            if write_line {
                let value: ILType = match self.pop() {
                    Ok(v) => v,
                    Err(f) => {
                        return Outcome::Fault(f);
                    },
                };
                proof {
                    assert(self.spec_stack() =~= old(self).spec_stack().subrange(
                        0,
                        old(self).spec_stack().len() - 1,
                    ));
                }
                return Outcome::WriteLine(self.format_il_type(&value));
            }
            return Outcome::Continue;
        }
        if !has_code {
            return Outcome::Fault(Fault::Unsupported);
        }
        let mut params: Vec<ILType> = given;
        if params.len() > needed {
            return Outcome::Fault(Fault::InvalidValue);
        }
        let ghost before_pop = self.spec_stack();
        let mut rest: Vec<ILType> = match self.pop_arguments(needed - params.len()) {
            Ok(values) => values,
            Err(f) => {
                return Outcome::Fault(f);
            },
        };
        proof {
            assert(rest@ =~= before_pop.subrange(
                self.spec_stack().len() as int,
                before_pop.len() as int,
            ));
        }
        params.append(&mut rest);
        if self.frames.len() > 0 && self.frames[self.frames.len() - 1].stack_base
            > self.stack.len() {
            return Outcome::Fault(Fault::StackUnderflow);
        }
        if !self.frames_ordered() {
            return Outcome::Fault(Fault::StackUnderflow);
        }
        self.enter_frame(target, method_index, token, params, locals, code_position, max_stack);
        proof {
            let before = old(self);
            let callers = before.spec_frames().len() as int;
            let frame = self.spec_top();
            let method = self.spec_method_of(frame);
            assert(self.spec_frames().len() == callers + 1);
            assert(method.rva != 0);
            assert(method.impl_flags & 0x1000 == 0);
            assert(frame.rip == method.code_position);
            assert(frame.stack_id == before.spec_ctx().stack_id + 1);
            assert(frame.params@.len() == needed);
            assert(self.spec_stack() =~= before.spec_stack().subrange(
                0,
                self.spec_stack().len() as int,
            ));
            assert(frame.params@ =~= given@ + before.spec_stack().subrange(
                self.spec_stack().len() as int,
                before.spec_stack().len() as int,
            ));
            assert(self.spec_entered(before, return_rip, given@));
        }
        Outcome::Continue
    }

    /// True where no call found fewer values on the operand stack than the call
    /// before it.
    fn frames_ordered(&self) -> (b: bool)
        ensures
            b == (forall|i: int, j: int|
                0 <= i <= j < self.spec_frames().len() ==> self.spec_frames()[i].stack_base
                    <= self.spec_frames()[j].stack_base),
    {
        let n: usize = self.frames.len();
        if n <= 1 {
            return true;
        }
        let mut k: usize = 1;
        while k < n
            invariant
                1 <= k <= n,
                n == self.frames@.len(),
                forall|i: int, j: int|
                    0 <= i <= j < k ==> self.frames@[i].stack_base <= self.frames@[j].stack_base,
            decreases n - k,
        {
            if self.frames[k - 1].stack_base > self.frames[k].stack_base {
                proof {
                    let a = k - 1;
                    let b = k as int;
                    assert(0 <= a <= b < self.spec_frames().len() && !(
                    self.spec_frames()[a].stack_base <= self.spec_frames()[b].stack_base));
                }
                return false;
            }
            proof {
                assert forall|i: int, j: int| 0 <= i <= j < k + 1 implies self.frames@[i].stack_base
                    <= self.frames@[j].stack_base by {
                    if j == k && i < k {
                        assert(self.frames@[i].stack_base <= self.frames@[k - 1].stack_base);
                    }
                }
            }
            k += 1;
        }
        true
    }

    /// Ends the executing call. The caller, if there is one, goes on where it
    /// stood.
    fn do_ret(&mut self) -> (outcome: Outcome)
        requires
            old(self).spec_frames().len() > 0,
        ensures
            final(self).spec_step_laws(old(self), outcome),
            !(outcome is LoadAssembly),
            final(self).spec_stack() == old(self).spec_stack(),
            final(self).spec_frames().len() == old(self).spec_frames().len() - 1,
            old(self).spec_frames().len() == 1 <==> outcome is Finished,
            forall|i: int|
                0 <= i < final(self).spec_frames().len() ==> final(self).spec_frames()[i] == old(self).spec_frames()[i],
            final(self).spec_objects() == old(self).spec_objects(),
            final(self).spec_strings() == old(self).spec_strings(),
            final(self).spec_statics() == old(self).spec_statics(),
            final(self).spec_assemblies() == old(self).spec_assemblies(),
            old(self).spec_refs_ok() ==> final(self).spec_refs_ok(),
    {
        let _ = self.frames.pop();
        proof {
            if old(self).spec_refs_ok() {
                assert forall|f: int| 0 <= f < self.spec_frames().len() implies #[trigger]
                    self.spec_frames()[f] == old(self).spec_frames()[f] by {}
                self.lemma_refs_kept(old(self));
            }
        }
        let _ = self.ctx.call_stack.pop();
        let depth: usize = self.ctx.call_stack.len();
        if depth > 0 {
            self.ctx.assembly_index = self.ctx.call_stack[depth - 1].0;
        }
        let n: usize = self.frames.len();
        if n == 0 {
            return Outcome::Finished;
        }
        let base: usize = self.frames[n - 1].stack_base;
        let max: usize = self.frames[n - 1].max_stack;
        let len: usize = self.stack.len();
        if len < base {
            return Outcome::Fault(Fault::StackUnderflow);
        }
        if len - base > max {
            return Outcome::Fault(Fault::StackOverflow);
        }
        proof {
            if old(self).spec_depth_ok() {
                assert forall|i: int, j: int|
                    0 <= i <= j < self.spec_frames().len() implies self.spec_frames()[i].stack_base
                    <= self.spec_frames()[j].stack_base by {
                    assert(self.spec_frames()[i] == old(self).spec_frames()[i]);
                    assert(self.spec_frames()[j] == old(self).spec_frames()[j]);
                }
            }
        }
        Outcome::Continue
    }

    /// The executing call is a fresh call of the method at `method_index` of the
    /// assembly at `target` with the arguments `params`: it stands at the first
    /// instruction of the method, has found what the operand stack holds, and its
    /// local variables hold the zero values of their types.
    pub open spec fn spec_fresh_call(&self, target: usize, method_index: usize, params: Seq<ILType>) -> bool {
        let frame = self.spec_top();
        let method = self.spec_assemblies()[target as int].methods@[method_index as int];
        &&& frame.assembly_index == target
        &&& frame.method_index == method_index
        &&& frame.rip == method.code_position
        &&& frame.max_stack == method.max_stack
        &&& frame.stack_base == self.spec_stack().len()
        &&& frame.params@ == params
        &&& Interpreter::spec_fresh_locals(
            self.spec_assemblies()[target as int],
            method_index as int,
            frame.locals@,
        )
    }

    /// The call that executed before stands below the executing call, at `next`
    /// and else as it was, and so do the calls below it.
    pub open spec fn spec_caller_waits(&self, before: &Interpreter, next: int) -> bool {
        let callers = before.spec_frames().len() as int;
        &&& callers > 0
        &&& self.spec_frames().len() == callers + 1
        &&& forall|i: int|
            0 <= i < callers - 1 ==> self.spec_frames()[i] == before.spec_frames()[i]
        &&& self.spec_frames()[callers - 1].rip == next
        &&& self.spec_frames()[callers - 1].params == before.spec_top().params
        &&& self.spec_frames()[callers - 1].locals == before.spec_top().locals
        &&& self.spec_frames()[callers - 1].stack_base == before.spec_top().stack_base
        &&& self.spec_frames()[callers - 1].max_stack == before.spec_top().max_stack
        &&& self.spec_frames()[callers - 1].assembly_index == before.spec_top().assembly_index
        &&& self.spec_frames()[callers - 1].method_index == before.spec_top().method_index
    }

    /// True where a jump to the method at `method_index` of the assembly at
    /// `target` is owed: the method has code that is not the runtime's own and as
    /// many parameters as the executing call has arguments, its local variables
    /// can be made, no call found fewer values on the operand stack than the call
    /// before it, and the calls can still be numbered.
    pub open spec fn spec_can_jump(before: &Interpreter, target: int, method_index: int) -> bool {
        let assembly = before.spec_assemblies()[target];
        let method = assembly.methods@[method_index];
        &&& method.impl_flags & 0x1000 == 0
        &&& method.rva != 0
        &&& method.param_list.count + (if method.attributes & 0x10 != 0 {
            0int
        } else {
            1int
        }) == before.spec_top().params@.len()
        &&& Interpreter::spec_locals_ok(assembly, method_index)
        &&& before.spec_ctx().stack_id < usize::MAX
        &&& forall|i: int, j: int|
            0 <= i <= j < before.spec_frames().len() ==> before.spec_frames()[i].stack_base
                <= before.spec_frames()[j].stack_base
    }

    /// What a jump to the method that `token` names does, seen from the assembly
    /// at `assembly_index`. The executing call must have left nothing on the
    /// operand stack. Where the token cannot be resolved the jump gives what the
    /// resolution gave. Else the executing call ends, and a fresh call of the
    /// method takes its place, with the arguments of the call that ended.
    pub open spec fn spec_jmp_law(
        &self,
        before: &Interpreter,
        outcome: Outcome,
        assembly_index: usize,
        token: u32,
    ) -> bool {
        let callers = before.spec_frames().len() - 1;
        if before.spec_stack().len() != before.spec_top().stack_base {
            outcome == Outcome::Fault(Fault::InvalidOperation)
        } else {
            match spec_method_place(
                &before.spec_registry(),
                assembly_index,
                token,
                MAX_TOKEN_HOPS as nat,
            ) {
                Found::Load(name) => outcome is LoadAssembly && outcome->LoadAssembly_0.name@
                    == name,
                Found::Fault(fault) => outcome == Outcome::Fault(fault),
                Found::At(method_index, target) => {
                    &&& outcome is Continue || outcome is Fault
                    &&& Interpreter::spec_can_jump(before, target as int, method_index as int)
                        ==> outcome is Continue
                    &&& outcome is Continue ==> {
                        &&& self.spec_stack() == before.spec_stack()
                        &&& self.spec_frames().len() == before.spec_frames().len()
                        &&& forall|i: int|
                            0 <= i < callers ==> self.spec_frames()[i] == before.spec_frames()[i]
                        &&& self.spec_fresh_call(target, method_index, before.spec_top().params@)
                        &&& self.spec_objects() == before.spec_objects()
                        &&& self.spec_strings() == before.spec_strings()
                        &&& self.spec_statics() == before.spec_statics()
                    }
                },
            }
        }
    }

    /// Ends the executing call and calls the method that `token` names with the
    /// arguments of the ended call. The ended call must have left nothing on the
    /// operand stack.
    fn do_jmp(&mut self, assembly_index: usize, token: u32) -> (outcome: Outcome)
        requires
            old(self).spec_frames().len() > 0,
        ensures
            final(self).spec_step_laws(old(self), outcome),
            outcome is Continue ==> final(self).spec_stack() == old(self).spec_stack() && old(self).spec_stack().len() == old(self).spec_top().stack_base && final(self).spec_frames().len() == old(self).spec_frames().len() && final(self).spec_top().params@ == old(self).spec_top().params@,
            !(outcome is Finished) && !(outcome is WriteLine) && !(outcome is FloatBinary),
            final(self).spec_jmp_law(old(self), outcome, assembly_index, token),
            old(self).spec_refs_ok() ==> final(self).spec_refs_ok(),
    {
        let n: usize = self.frames.len();
        if self.stack.len() != self.frames[n - 1].stack_base {
            return Outcome::Fault(Fault::InvalidOperation);
        }
        let found: (usize, usize) = match get_method_index(&self.assemblies, assembly_index, token) {
            Ok(found) => found,
            Err(stop) => {
                return Interpreter::stopped(stop);
            },
        };
        let ghost place = found;
        let frame: Frame = match self.frames.pop() {
            Some(f) => f,
            None => {
                return Outcome::Fault(Fault::InvalidIndex);
            },
        };
        let _ = self.ctx.call_stack.pop();
        let ghost mid = *self;
        let ghost handed = frame.params@;
        let handed_count: usize = frame.params.len();
        let depth: usize = self.stack.len();
        proof {
            assert(handed.len() == handed_count);
            assert(mid.spec_frames() =~= old(self).spec_frames().drop_last());
            if old(self).spec_refs_ok() {
                assert(Interpreter::spec_values_ok(
                    old(self).spec_frames()[n - 1].params@,
                    mid.spec_objects().len() as int,
                    mid.spec_strings().len() as int,
                ));
                assert forall|f: int| 0 <= f < mid.spec_frames().len() implies Interpreter::spec_values_ok(
                    (#[trigger] mid.spec_frames()[f]).params@,
                    mid.spec_objects().len() as int,
                    mid.spec_strings().len() as int,
                ) && Interpreter::spec_values_ok(
                    mid.spec_frames()[f].locals@,
                    mid.spec_objects().len() as int,
                    mid.spec_strings().len() as int,
                ) by {
                    assert(mid.spec_frames()[f] == old(self).spec_frames()[f]);
                }
                mid.lemma_refs_calls(old(self));
            }
            if Interpreter::spec_can_jump(old(self), place.1 as int, place.0 as int) {
                assert(mid.spec_frames() =~= old(self).spec_frames().drop_last());
                assert forall|i: int, j: int| 0 <= i <= j < mid.spec_frames().len() implies mid.spec_frames()[i].stack_base
                    <= mid.spec_frames()[j].stack_base by {
                    assert(mid.spec_frames()[i] == old(self).spec_frames()[i]);
                    assert(mid.spec_frames()[j] == old(self).spec_frames()[j]);
                }
                if mid.spec_frames().len() > 0 {
                    assert(mid.spec_top() == old(self).spec_frames()[n - 2]);
                    assert(old(self).spec_frames()[n - 2].stack_base <= old(self).spec_frames()[n
                        - 1].stack_base);
                }
                assert(Interpreter::spec_can_enter(
                    &mid,
                    place.1 as int,
                    place.0 as int,
                    handed.len() as int,
                ));
            }
        }
        let outcome = self.do_call(assembly_index, token, None, frame.params);
        let result: Outcome = match outcome {
            Outcome::Continue => {
                proof {
                    assert(self.spec_heap_grown(&mid));
                    if Interpreter::spec_can_jump(old(self), place.1 as int, place.0 as int) {
                        assert(self.spec_frames().len() == n);
                        assert(self.spec_entered(&mid, None, handed));
                        assert(self.spec_top().params@.len() == handed.len());
                        assert(self.spec_stack().len() == depth);
                        assert forall|i: int, j: int|
                            0 <= i <= j < self.spec_frames().len() implies self.spec_frames()[i].stack_base
                            <= self.spec_frames()[j].stack_base by {
                            if i < n - 1 {
                                assert(self.spec_frames()[i] == old(self).spec_frames()[i]);
                                assert(old(self).spec_frames()[i].stack_base <= old(self).spec_frames()[n
                                    - 1].stack_base);
                            }
                            if j < n - 1 {
                                assert(self.spec_frames()[j] == old(self).spec_frames()[j]);
                            }
                        }
                        assert(self.spec_depth_ok());
                    }
                }
                if self.frames.len() == n && self.stack.len() == depth && self.depth_ok() {
                    proof {
                        assert(mid.spec_stack().subrange(depth as int, depth as int)
                            =~= Seq::<ILType>::empty());
                        assert(self.spec_top().params@ =~= handed);
                        assert(self.spec_entered(&mid, None, handed));
                        assert forall|i: int| 0 <= i < n - 1 implies self.spec_frames()[i]
                            == old(self).spec_frames()[i] by {
                            assert(mid.spec_frames()[i] == old(self).spec_frames()[i]);
                        }
                        assert(self.spec_fresh_call(place.1, place.0, old(self).spec_top().params@));
                    }
                    Outcome::Continue
                } else {
                    Outcome::Fault(Fault::Unsupported)
                }
            },
            Outcome::Fault(f) => Outcome::Fault(f),
            _ => Outcome::Fault(Fault::Unsupported),
        };
        proof {
            assert(spec_method_place(
                &old(self).spec_registry(),
                assembly_index,
                token,
                MAX_TOKEN_HOPS as nat,
            ) == Found::At(place.0, place.1));
            assert(result is Continue || result is Fault);
            if Interpreter::spec_can_jump(old(self), place.1 as int, place.0 as int) {
                assert(result is Continue);
            }
            if result is Continue {
                assert(self.spec_stack() == old(self).spec_stack());
                assert(self.spec_frames().len() == old(self).spec_frames().len());
                assert(forall|i: int|
                    0 <= i < n - 1 ==> self.spec_frames()[i] == old(self).spec_frames()[i]);
                assert(self.spec_fresh_call(place.1, place.0, old(self).spec_top().params@));
                assert(self.spec_objects() == old(self).spec_objects());
                assert(self.spec_strings() == old(self).spec_strings());
                assert(self.spec_statics() == old(self).spec_statics());
            }
            assert(self.spec_jmp_law(old(self), result, assembly_index, token));
        }
        result
    }

    /// True where the bound on the operand stack holds.
    fn depth_ok(&self) -> (b: bool)
        ensures
            b == self.spec_depth_ok(),
    {
        let n: usize = self.frames.len();
        if n > 0 {
            let base: usize = self.frames[n - 1].stack_base;
            let max: usize = self.frames[n - 1].max_stack;
            let len: usize = self.stack.len();
            if len < base || len - base > max {
                return false;
            }
        }
        self.frames_ordered()
    }

    /// The fields of `object`: the row number of each with its value, in order.
    pub open spec fn spec_object_slots(object: Object) -> Seq<(u32, ILTypeView)> {
        Seq::new(
            object.spec_field_rids().len(),
            |j: int| (object.spec_field_rids()[j], object.spec_field_values()[j].view()),
        )
    }

    /// True where `made` is a fresh object of the type that owns the constructor
    /// that `token` names, seen from the assembly at `assembly_index`: it counts
    /// as that type, and has the fields of the type and of its ancestors, each at
    /// its zero value.
    pub open spec fn spec_made(
        before: &Interpreter,
        made: Object,
        assembly_index: usize,
        token: u32,
    ) -> bool {
        match spec_method_place(
            &before.spec_registry(),
            assembly_index,
            token,
            MAX_TOKEN_HOPS as nat,
        ) {
            Found::At(method_index, target) => {
                let owner = before.spec_assemblies()[target as int].methods@[method_index as int].owner_type;
                &&& owner < 0x00FF_FFFF
                &&& made.spec_origin() == 0x0200_0001 + owner
                &&& made.spec_type_token() == 0x0200_0001 + owner
                &&& made.spec_box_value().is_none()
                &&& match spec_extends_chain(
                    &before.spec_registry(),
                    target,
                    (0x0200_0001 + owner) as u32,
                    MAX_CHAIN as nat,
                ) {
                    Chain::Of(places) => Interpreter::spec_object_slots(made) == spec_field_list(
                        &before.spec_registry(),
                        places,
                        places.len(),
                    ),
                    _ => false,
                }
            },
            _ => false,
        }
    }

    /// What a cast of the object at `index` of the object heap to the type that
    /// `token` names, seen from the assembly at `assembly_index`, gives: where
    /// the type is the one that the object was made of, or one of its ancestors,
    /// the object counts as the type from then on; where it is not, the cast
    /// faults and the object counts as what it did. Where a type cannot be
    /// resolved the cast gives what the resolution gave.
    pub open spec fn spec_cast_law(
        &self,
        before: &Interpreter,
        outcome: Outcome,
        assembly_index: usize,
        index: int,
        token: u32,
    ) -> bool {
        match spec_extends_chain(
            &before.spec_registry(),
            assembly_index,
            before.spec_objects()[index].spec_origin(),
            MAX_CHAIN as nat,
        ) {
            Chain::Of(places) => match spec_resolve_type(
                &before.spec_registry(),
                assembly_index,
                token,
                MAX_TOKEN_HOPS as nat,
            ) {
                Found::At(type_def_index, target) => if places.contains((target, type_def_index)) {
                    outcome is Continue && self.spec_objects()[index].spec_type_token() == token
                } else {
                    outcome == Outcome::Fault(Fault::InvalidCast)
                        && self.spec_objects()[index].spec_type_token()
                        == before.spec_objects()[index].spec_type_token()
                },
                Found::Load(name) => outcome is LoadAssembly && outcome->LoadAssembly_0.name@
                    == name,
                Found::Fault(fault) => outcome == Outcome::Fault(fault),
            },
            Chain::Load(name) => outcome is LoadAssembly && outcome->LoadAssembly_0.name@ == name,
            Chain::Fault(fault) => outcome == Outcome::Fault(fault),
        }
    }

    /// True where making an object with the constructor at `method_index` of the
    /// assembly at `target` is owed: the executing method has the arguments of
    /// the constructor on the operand stack and room for the reference behind
    /// them; and the constructor is the runtime's own, or it is no static method
    /// and a call of it with the reference and the arguments is owed.
    pub open spec fn spec_can_new(before: &Interpreter, target: int, method_index: int) -> bool {
        let assembly = before.spec_assemblies()[target];
        let method = assembly.methods@[method_index];
        let formal = method.param_list.count as int;
        &&& before.spec_has_values(formal)
        &&& before.spec_stack().len() - formal < before.spec_top().stack_base
            + before.spec_top().max_stack
        &&& method.impl_flags & 0x1000 != 0 || {
            &&& method.attributes & 0x10 == 0
            &&& formal + 1 <= usize::MAX
            &&& method.rva != 0
            &&& Interpreter::spec_locals_ok(assembly, method_index)
            &&& before.spec_ctx().stack_id < usize::MAX
            &&& forall|i: int, j: int|
                0 <= i <= j < before.spec_frames().len() ==> before.spec_frames()[i].stack_base
                    <= before.spec_frames()[j].stack_base
        }
    }

    /// What making an object with the constructor that `token` names does, seen
    /// from the assembly at `assembly_index`. Where the token or an ancestor of
    /// the type cannot be resolved the step gives what the resolution gave. Else
    /// the arguments of the constructor are taken off the operand stack, a
    /// reference to the new object is put there, and the constructor is called
    /// with the reference and the arguments; the caller goes on at `next`
    /// afterwards. A constructor that is the runtime's own is not called.
    pub open spec fn spec_newobj_law(
        &self,
        before: &Interpreter,
        outcome: Outcome,
        assembly_index: usize,
        token: u32,
        next: int,
    ) -> bool {
        match spec_method_place(
            &before.spec_registry(),
            assembly_index,
            token,
            MAX_TOKEN_HOPS as nat,
        ) {
            Found::Load(name) => outcome is LoadAssembly && outcome->LoadAssembly_0.name@ == name,
            Found::Fault(fault) => outcome == Outcome::Fault(fault),
            Found::At(method_index, target) => {
                let method = before.spec_assemblies()[target as int].methods@[method_index as int];
                let formal = method.param_list.count as int;
                let len = before.spec_stack().len() as int;
                let fresh = ILType::Ref(ILRefType::Object(before.spec_objects().len() as usize));
                if method.owner_type >= 0x00FF_FFFF {
                    outcome == Outcome::Fault(Fault::InvalidIndex)
                } else {
                    match spec_extends_chain(
                        &before.spec_registry(),
                        target,
                        (0x0200_0001 + method.owner_type) as u32,
                        MAX_CHAIN as nat,
                    ) {
                        Chain::Load(name) => outcome is LoadAssembly && outcome->LoadAssembly_0.name@
                            == name,
                        Chain::Fault(fault) => outcome == Outcome::Fault(fault),
                        Chain::Of(places) => {
                            &&& outcome is Continue || outcome is Fault
                            &&& Interpreter::spec_can_new(
                                before,
                                target as int,
                                method_index as int,
                            ) ==> outcome is Continue
                            &&& outcome is Continue ==> {
                                &&& formal <= len
                                &&& self.spec_stack() == before.spec_stack().subrange(
                                    0,
                                    len - formal,
                                ).push(fresh)
                                &&& if method.impl_flags & 0x1000 != 0 {
                                    self.spec_went_on(before, next) && self.spec_slots_same(before)
                                } else {
                                    self.spec_caller_waits(before, next) && self.spec_fresh_call(
                                        target,
                                        method_index,
                                        seq![fresh] + before.spec_stack().subrange(
                                            len - formal,
                                            len,
                                        ),
                                    )
                                }
                            }
                        },
                    }
                }
            },
        }
    }

    /// Makes an object of the type of the constructor that `token` names, with
    /// the fields of the type and its ancestors at their zero values, puts a
    /// reference to it on the operand stack, and calls the constructor with the
    /// object and the arguments that lay on the stack.
    fn op_newobj(&mut self, assembly_index: usize, token: u32, rip: usize) -> (outcome: Outcome)
        requires
            old(self).spec_frames().len() > 0,
        ensures
            final(self).spec_step_laws(old(self), outcome),
            outcome is Continue ==> final(self).spec_objects().len() == old(self).spec_objects().len() + 1,
            final(self).spec_strings() == old(self).spec_strings(),
            final(self).spec_statics() == old(self).spec_statics(),
            !(outcome is Finished) && !(outcome is WriteLine) && !(outcome is FloatBinary),
            outcome is Continue ==> {
                let made = final(self).spec_objects()[old(self).spec_objects().len() as int];
                &&& final(self).spec_objects() == old(self).spec_objects().push(made)
                &&& made.spec_box_value().is_none()
                &&& made.spec_origin() == made.spec_type_token()
                &&& super::metadata::md_token::spec_table_type(token) == 0x06 ==> spec_rid(token)
                    >= 1 && assembly_index < old(self).spec_assemblies().len() && spec_rid(token)
                    - 1 < old(self).spec_assemblies()[assembly_index as int].methods@.len()
                    && made.spec_origin() == 0x0200_0001 + old(self).spec_assemblies()[assembly_index as int].methods@[spec_rid(token)
                    - 1].owner_type
                &&& Interpreter::spec_made(old(self), made, assembly_index, token)
            },
            final(self).spec_newobj_law(old(self), outcome, assembly_index, token, rip as int),
            old(self).spec_refs_ok() ==> final(self).spec_refs_ok(),
    {
        let (method_index, target) = match get_method_index(&self.assemblies, assembly_index, token) {
            Ok(found) => found,
            Err(stop) => {
                return Interpreter::stopped(stop);
            },
        };
        let assembly: &Assembly = match self.assemblies.index_get(target) {
            Some(a) => a,
            None => {
                return Outcome::Fault(Fault::InvalidIndex);
            },
        };
        let method = &assembly.methods[method_index];
        let owner: u32 = method.owner_type;
        if owner >= 0x00FF_FFFF {
            return Outcome::Fault(Fault::InvalidIndex);
        }
        let type_token: u32 = 0x0200_0001 + owner;
        let formal: usize = method.param_list.count as usize;
        let internal: bool = method.is_internal_call();
        let chain: Vec<(usize, usize)> = match extends_chain(&self.assemblies, target, type_token) {
            Ok(chain) => chain,
            Err(stop) => {
                return Interpreter::stopped(stop);
            },
        };
        let field_map: HashVec<u32, ILType> = field_list(&self.assemblies, &chain);
        let mut arguments: Vec<ILType> = match self.pop_arguments(formal) {
            Ok(values) => values,
            Err(f) => {
                return Outcome::Fault(f);
            },
        };
        let index: usize = self.objects.len();
        let ghost slots = super::resolve::spec_slots(&field_map);
        let fresh: Object = Object::new(type_token, field_map);
        proof {
            assert(Interpreter::spec_object_slots(fresh) =~= slots);
            assert(Interpreter::spec_made(old(self), fresh, assembly_index, token));
        }
        let ghost popped = *self;
        let ghost plain = fresh.spec_field_values();
        self.objects.push(fresh);
        proof {
            if old(self).spec_refs_ok() {
                assert forall|k: int| 0 <= k < popped.spec_objects().len() implies #[trigger]
                    self.spec_objects()[k] == popped.spec_objects()[k] by {}
                assert(super::resolve::spec_plain(plain));
                assert forall|j: int| 0 <= j < plain.len() implies Interpreter::spec_value_ok(
                    (#[trigger] plain[j]).view(),
                    self.spec_objects().len() as int,
                    self.spec_strings().len() as int,
                ) by {}
                self.lemma_refs_from(&popped);
                Interpreter::lemma_values_grow(
                    arguments@,
                    popped.spec_objects().len() as int,
                    popped.spec_strings().len() as int,
                    self.spec_objects().len() as int,
                    self.spec_strings().len() as int,
                );
            }
        }
        match self.push(ILType::Ref(ILRefType::Object(index))) {
            Ok(()) => {},
            Err(f) => {
                return Outcome::Fault(f);
            },
        }
        if internal {
            self.set_rip(rip);
            return Outcome::Continue;
        }
        let mut given: Vec<ILType> = Vec::new();
        given.push(ILType::Ref(ILRefType::Object(index)));
        given.append(&mut arguments);
        let ghost mid = *self;
        let ghost handed = given@;
        let ghost len = old(self).spec_stack().len() as int;
        let ghost reference = ILType::Ref(ILRefType::Object(index));
        proof {
            assert(handed =~= seq![reference] + old(self).spec_stack().subrange(
                len - formal,
                len,
            ));
            if old(self).spec_refs_ok() {
                assert forall|i: int| 0 <= i < handed.len() implies Interpreter::spec_value_ok(
                    (#[trigger] handed[i]).view(),
                    mid.spec_objects().len() as int,
                    mid.spec_strings().len() as int,
                ) by {
                    if i > 0 {
                        assert(handed[i] == old(self).spec_stack()[len - formal + i - 1]);
                    }
                }
            }
            assert(mid.spec_stack() =~= old(self).spec_stack().subrange(0, len - formal).push(
                reference,
            ));
            assert(mid.spec_frames() == old(self).spec_frames());
            if Interpreter::spec_can_new(old(self), target as int, method_index as int) {
                assert(Interpreter::spec_can_enter(
                    &mid,
                    target as int,
                    method_index as int,
                    handed.len() as int,
                ));
            }
        }
        let outcome = self.do_call(assembly_index, token, Some(rip), given);
        proof {
            assert(self.spec_heap_grown(&mid));
        }
        let result: Outcome = match outcome {
            Outcome::Continue => {
                if self.objects.len() == index + 1 {
                    Outcome::Continue
                } else {
                    Outcome::Fault(Fault::InvalidIndex)
                }
            },
            Outcome::Fault(f) => Outcome::Fault(f),
            _ => Outcome::Fault(Fault::ResolutionFailure),
        };
        proof {
            assert(spec_method_place(
                &old(self).spec_registry(),
                assembly_index,
                token,
                MAX_TOKEN_HOPS as nat,
            ) == Found::At(method_index, target));
            assert(result is Continue || result is Fault);
            if Interpreter::spec_can_new(old(self), target as int, method_index as int) {
                assert(outcome is Continue);
                assert(result is Continue);
            }
            if result is Continue {
                assert(self.spec_entered(&mid, Some(rip), handed));
                assert(self.spec_top().params@.len() == handed.len());
                assert(self.spec_stack() =~= mid.spec_stack());
                assert(self.spec_top().params@ =~= handed);
                assert(self.spec_caller_waits(old(self), rip as int));
                assert(self.spec_fresh_call(target, method_index, handed));
            }
            assert(self.spec_newobj_law(old(self), result, assembly_index, token, rip as int));
        }
        result
    }

    /// Makes the object that the reference on top of the operand stack names
    /// count as the type that `token` names, which must be the type that the
    /// object was made of or one of its ancestors. The null reference and a
    /// reference to a string are left as they are.
    fn op_castclass(&mut self, assembly_index: usize, token: u32, rip: usize) -> (outcome: Outcome)
        requires
            old(self).spec_frames().len() > 0,
        ensures
            final(self).spec_step_laws(old(self), outcome),
            final(self).spec_stack() == old(self).spec_stack(),
            final(self).spec_objects().len() == old(self).spec_objects().len(),
            outcome is Continue ==> final(self).spec_top().rip == rip,
            old(self).spec_stack().len() > old(self).spec_top().stack_base ==> {
                let top = old(self).spec_stack()[old(self).spec_stack().len() - 1].view();
                &&& top == ILTypeView::Ref(ILRefType::Null) ==> outcome is Continue
                &&& top is Ref && top->Ref_0 is String ==> outcome is Continue
                &&& !(top is Ref) ==> outcome == Outcome::Fault(Fault::InvalidCast)
                &&& top is Ref && top->Ref_0 is Object && outcome is Continue ==> top->Ref_0->Object_0
                    < old(self).spec_objects().len() && final(self).spec_objects()[top->Ref_0->Object_0 as int].spec_type_token()
                    == token
                &&& top is Ref && top->Ref_0 is Object ==> if top->Ref_0->Object_0
                    < old(self).spec_objects().len() {
                    final(self).spec_cast_law(
                        old(self),
                        outcome,
                        assembly_index,
                        top->Ref_0->Object_0 as int,
                        token,
                    )
                } else {
                    outcome == Outcome::Fault(Fault::InvalidIndex)
                }
            },
            outcome is Continue ==> final(self).spec_went_on(old(self), rip as int)
                && final(self).spec_slots_same(old(self)) && final(self).spec_strings()
                == old(self).spec_strings() && final(self).spec_statics() == old(self).spec_statics()
                && final(self).spec_registry() == old(self).spec_registry(),
            old(self).spec_refs_ok() ==> final(self).spec_refs_ok(),
    {
        let top: ILType = match self.peek() {
            Ok(v) => v,
            Err(f) => {
                return Outcome::Fault(f);
            },
        };
        match top {
            ILType::Ref(ILRefType::Null) => {
                self.set_rip(rip);
                Outcome::Continue
            },
            ILType::Ref(ILRefType::String(_)) => {
                self.set_rip(rip);
                Outcome::Continue
            },
            ILType::Ref(ILRefType::Object(index)) => {
                if index >= self.objects.len() {
                    return Outcome::Fault(Fault::InvalidIndex);
                }
                let origin: u32 = self.objects[index].get_type();
                let chain: Vec<(usize, usize)> = match extends_chain(
                    &self.assemblies,
                    assembly_index,
                    origin,
                ) {
                    Ok(chain) => chain,
                    Err(stop) => {
                        return Interpreter::stopped(stop);
                    },
                };
                let target: (usize, usize) = match resolve_type_def_or_ref(
                    &self.assemblies,
                    assembly_index,
                    token,
                ) {
                    Ok((type_def_index, target)) => (target, type_def_index),
                    Err(stop) => {
                        return Interpreter::stopped(stop);
                    },
                };
                let ghost before = *self;
                match self.objects[index].cast_to(&chain, target, token) {
                    Ok(()) => {
                        proof {
                            assert forall|k: int| 0 <= k < before.spec_objects().len() implies (
                            #[trigger] self.spec_objects()[k]).spec_origin()
                                == before.spec_objects()[k].spec_origin() by {}
                            if before.spec_refs_ok() {
                                assert forall|k: int|
                                    0 <= k < before.spec_objects().len() && k != index implies #[trigger]
                                    self.spec_objects()[k] == before.spec_objects()[k] by {}
                                self.lemma_refs_from(&before);
                            }
                        }
                        self.set_rip(rip);
                        Outcome::Continue
                    },
                    Err(f) => {
                        proof {
                            assert forall|k: int| 0 <= k < before.spec_objects().len() implies (
                            #[trigger] self.spec_objects()[k]).spec_origin()
                                == before.spec_objects()[k].spec_origin() by {}
                            if before.spec_refs_ok() {
                                assert forall|k: int|
                                    0 <= k < before.spec_objects().len() && k != index implies #[trigger]
                                    self.spec_objects()[k] == before.spec_objects()[k] by {}
                                self.lemma_refs_from(&before);
                            }
                        }
                        Outcome::Fault(f)
                    },
                }
            },
            _ => Outcome::Fault(Fault::InvalidCast),
        }
    }

    /// True where the static field `token` of the assembly at `assembly_index`
    /// has been initialised.
    pub open spec fn spec_static_ready(&self, assembly_index: int, token: u32) -> bool {
        0 <= assembly_index < self.spec_statics().len() && self.spec_statics()[assembly_index].spec_index_of(
            token,
        ).is_some()
    }

    /// The token of the first method from place `from` of `list` on that is named
    /// `.cctor`, if there is one.
    pub open spec fn spec_find_cctor(
        methods: Seq<super::method::Method>,
        list: super::metadata::rid_list::RidList,
        from: nat,
    ) -> Option<u32>
        decreases list.count - from,
    {
        if from >= list.count {
            None
        } else {
            let rid = list.spec_get(from as u32);
            if rid != 0 && rid <= methods.len() && rid <= 0x00FF_FFFF && methods[rid - 1].name@
                == ".cctor"@ {
                Some((0x0600_0000 + rid) as u32)
            } else {
                Interpreter::spec_find_cctor(methods, list, from + 1)
            }
        }
    }

    /// The class constructor that was found is a method named `.cctor`.
    proof fn lemma_cctor_named(
        methods: Seq<super::method::Method>,
        list: super::metadata::rid_list::RidList,
        from: nat,
    )
        ensures
            match Interpreter::spec_find_cctor(methods, list, from) {
                Some(token) => {
                    &&& super::metadata::md_token::spec_table_type(token) == 0x06
                    &&& 1 <= spec_rid(token) <= methods.len()
                    &&& methods[spec_rid(token) - 1].name@ == ".cctor"@
                },
                None => true,
            },
        decreases list.count - from,
    {
        if from < list.count {
            let rid = list.spec_get(from as u32);
            if rid != 0 && rid <= methods.len() && rid <= 0x00FF_FFFF && methods[rid - 1].name@
                == ".cctor"@ {
                let token = (0x0600_0000 + rid) as u32;
                assert(spec_rid(token) == rid);
                assert(super::metadata::md_token::spec_table_type(token) == 0x06);
            } else {
                Interpreter::lemma_cctor_named(methods, list, from + 1);
            }
        }
    }

    /// The token of the class constructor of the type at `type_def_index` of
    /// `assembly`, if the type has one.
    pub open spec fn spec_cctor(assembly: Assembly, type_def_index: int) -> Option<u32> {
        if 0 <= type_def_index < assembly.type_defs.spec_values().len() {
            Interpreter::spec_find_cctor(
                assembly.methods@,
                assembly.type_defs.spec_values()[type_def_index].method_list,
                0,
            )
        } else {
            None
        }
    }

    /// The token of the class constructor of the type at `type_def_index` of
    /// `assembly`, if the type has one: the first of its methods that is named
    /// `.cctor`.
    fn find_cctor(assembly: &Assembly, type_def_index: usize) -> (cctor: Option<u32>)
        ensures
            cctor == Interpreter::spec_cctor(*assembly, type_def_index as int),
            cctor.is_some() ==> super::metadata::md_token::spec_table_type(cctor.unwrap()) == 0x06,
    {
        let type_def = match assembly.type_defs.index_get(type_def_index) {
            Some(t) => t,
            None => {
                return None;
            },
        };
        let wanted: String = String::from_str(".cctor");
        proof {
            reveal_strlit(".cctor");
        }
        let count: u32 = type_def.method_list.count;
        let mut i: u32 = 0;
        while i < count
            invariant
                i <= count,
                count == type_def.method_list.count,
                wanted@ == ".cctor"@,
                type_def_index < assembly.type_defs.spec_values().len(),
                *type_def == assembly.type_defs.spec_values()[type_def_index as int],
                Interpreter::spec_find_cctor(assembly.methods@, type_def.method_list, 0)
                    == Interpreter::spec_find_cctor(
                    assembly.methods@,
                    type_def.method_list,
                    i as nat,
                ),
            decreases count - i,
        {
            let rid: u32 = type_def.method_list.get(i);
            if rid != 0 && rid as usize <= assembly.methods.len() && rid <= 0x00FF_FFFF {
                let method = &assembly.methods[(rid - 1) as usize];
                if method.name.eq(&wanted) {
                    return Some(0x0600_0000 + rid);
                }
            }
            i += 1;
        }
        None
    }

    /// True where `token` names a static field of `assembly`.
    pub open spec fn spec_static_field(assembly: Assembly, token: u32) -> bool {
        &&& super::metadata::md_token::spec_table_type(token) == 0x04
        &&& 1 <= spec_rid(token) <= assembly.fields@.len()
        &&& assembly.fields@[spec_rid(token) - 1].flags & 0x0010 != 0
    }

    /// The zero value of the type of the field that `token` names.
    pub open spec fn spec_static_zero(assembly: Assembly, token: u32) -> ILTypeView {
        super::resolve::spec_zero_of(assembly.fields@[spec_rid(token) - 1].signature)
    }

    /// True where `token` is the token of a static field among the first `upto`
    /// fields of `list`.
    pub open spec fn spec_static_of_type(
        assembly: Assembly,
        list: super::metadata::rid_list::RidList,
        upto: int,
        token: u32,
    ) -> bool {
        exists|i: int|
            0 <= i < upto && i < list.count && token == 0x0400_0000 + #[trigger] list.spec_get(
                i as u32,
            ) && list.spec_get(i as u32) <= 0x00FF_FFFF && Interpreter::spec_static_field(
                assembly,
                token,
            )
    }

    /// The tokens of the static fields of the type at `type_def_index` of
    /// `assembly`, each with the zero value of its type.
    fn static_zeros(assembly: &Assembly, type_def_index: usize) -> (zeros: Vec<(u32, ILType)>)
        ensures
            forall|j: int|
                0 <= j < zeros@.len() ==> (#[trigger] zeros@[j]).1.view() is Val || zeros@[j].1.view()
                    == ILTypeView::Ref(ILRefType::Null),
            forall|j: int|
                0 <= j < zeros@.len() ==> Interpreter::spec_static_field(
                    *assembly,
                    (#[trigger] zeros@[j]).0,
                ) && zeros@[j].1.view() == Interpreter::spec_static_zero(*assembly, zeros@[j].0),
            type_def_index < assembly.type_defs.spec_values().len() ==> forall|token: u32|
                #[trigger] Interpreter::spec_static_of_type(
                    *assembly,
                    assembly.type_defs.spec_values()[type_def_index as int].field_list,
                    assembly.type_defs.spec_values()[type_def_index as int].field_list.count as int,
                    token,
                ) ==> exists|j: int| 0 <= j < zeros@.len() && (#[trigger] zeros@[j]).0 == token,
    {
        let mut zeros: Vec<(u32, ILType)> = Vec::new();
        let type_def = match assembly.type_defs.index_get(type_def_index) {
            Some(t) => t,
            None => {
                return zeros;
            },
        };
        let count: u32 = type_def.field_list.count;
        let mut i: u32 = 0;
        while i < count
            invariant
                i <= count,
                count == type_def.field_list.count,
                forall|j: int|
                    0 <= j < zeros@.len() ==> (#[trigger] zeros@[j]).1.view() is Val
                        || zeros@[j].1.view() == ILTypeView::Ref(ILRefType::Null),
                forall|j: int|
                    0 <= j < zeros@.len() ==> Interpreter::spec_static_field(
                        *assembly,
                        (#[trigger] zeros@[j]).0,
                    ) && zeros@[j].1.view() == Interpreter::spec_static_zero(
                        *assembly,
                        zeros@[j].0,
                    ),
                forall|token: u32|
                    #[trigger] Interpreter::spec_static_of_type(
                        *assembly,
                        type_def.field_list,
                        i as int,
                        token,
                    ) ==> exists|j: int| 0 <= j < zeros@.len() && (#[trigger] zeros@[j]).0 == token,
            decreases count - i,
        {
            let rid: u32 = type_def.field_list.get(i);
            let ghost before = zeros@;
            if rid != 0 && rid as usize <= assembly.fields.len() && rid <= 0x00FF_FFFF {
                let field = &assembly.fields[(rid - 1) as usize];
                if field.is_static() {
                    let token: u32 = 0x0400_0000 + rid;
                    assert(spec_rid(token) == rid && super::metadata::md_token::spec_table_type(
                        token,
                    ) == 0x04);
                    zeros.push((token, zero_of(&field.signature)));
                }
            }
            proof {
                assert forall|token: u32|
                    #[trigger] Interpreter::spec_static_of_type(
                        *assembly,
                        type_def.field_list,
                        i + 1,
                        token,
                    ) implies exists|j: int|
                    0 <= j < zeros@.len() && (#[trigger] zeros@[j]).0 == token by {
                    let k = choose|k: int|
                        0 <= k < i + 1 && k < type_def.field_list.count && token == 0x0400_0000
                            + #[trigger] type_def.field_list.spec_get(k as u32)
                            && type_def.field_list.spec_get(k as u32) <= 0x00FF_FFFF
                            && Interpreter::spec_static_field(*assembly, token);
                    if k < i {
                        assert(Interpreter::spec_static_of_type(
                            *assembly,
                            type_def.field_list,
                            i as int,
                            token,
                        ));
                        let j = choose|j: int| 0 <= j < before.len() && (#[trigger] before[j]).0 == token;
                        assert(zeros@[j] == before[j]);
                    } else {
                        assert(zeros@[zeros@.len() - 1].0 == token);
                    }
                }
            }
            i += 1;
        }
        zeros
    }

    /// What a load of the static field `token` of the assembly at
    /// `assembly_index`, a load of its address or a store into it does where the
    /// field has not been initialised. The field is not read and not written.
    /// Every static field of the type that owns it is initialised: the fields that
    /// were not hold the zero values of their types, the others what they held.
    /// Then the class constructor of the type is called, if it has one; the
    /// instruction is taken again afterwards. A token that names no static field
    /// faults.
    pub open spec fn spec_static_init_law(
        &self,
        before: &Interpreter,
        outcome: Outcome,
        assembly_index: usize,
        token: u32,
    ) -> bool {
        let assembly = before.spec_assemblies()[assembly_index as int];
        let store = self.spec_statics()[assembly_index as int];
        let old_store = before.spec_statics()[assembly_index as int];
        if super::metadata::md_token::spec_table_type(token) != 0x04 || spec_rid(token) == 0 {
            outcome == Outcome::Fault(Fault::InvalidToken)
        } else if spec_rid(token) - 1 >= assembly.fields@.len() {
            outcome == Outcome::Fault(Fault::InvalidIndex)
        } else if assembly.fields@[spec_rid(token) - 1].flags & 0x0010 == 0 {
            outcome == Outcome::Fault(Fault::InvalidOperation)
        } else if assembly_index >= before.spec_statics().len() {
            outcome == Outcome::Fault(Fault::InvalidIndex)
        } else {
            let owner = assembly.fields@[spec_rid(token) - 1].owner_type as int;
            &&& outcome is Continue || outcome is Fault
            &&& self.spec_statics().len() == before.spec_statics().len()
            &&& forall|k: int|
                0 <= k < before.spec_statics().len() && k != assembly_index
                    ==> #[trigger] self.spec_statics()[k] == before.spec_statics()[k]
            &&& store.spec_index_of(token).is_some()
            &&& forall|t: u32|
                (#[trigger] old_store.spec_index_of(t)).is_some() ==> store.spec_index_of(t)
                    == old_store.spec_index_of(t) && store.spec_values()[old_store.spec_index_of(
                    t,
                ).unwrap() as int] == old_store.spec_values()[old_store.spec_index_of(
                    t,
                ).unwrap() as int]
            &&& forall|t: u32|
                old_store.spec_index_of(t).is_none() && (#[trigger] store.spec_index_of(
                    t,
                )).is_some() ==> store.spec_values()[store.spec_index_of(t).unwrap() as int].view()
                    == Interpreter::spec_static_zero(assembly, t)
            &&& owner < assembly.type_defs.spec_values().len() ==> forall|t: u32|
                #[trigger] Interpreter::spec_static_of_type(
                    assembly,
                    assembly.type_defs.spec_values()[owner].field_list,
                    assembly.type_defs.spec_values()[owner].field_list.count as int,
                    t,
                ) ==> store.spec_index_of(t).is_some()
            &&& self.spec_objects() == before.spec_objects()
            &&& self.spec_strings() == before.spec_strings()
            &&& match Interpreter::spec_cctor(assembly, owner) {
                Some(cctor) => (outcome is Continue ==> self.spec_call_effect(
                    before,
                    outcome,
                    None,
                    Seq::<ILType>::empty(),
                )) && self.spec_call_target(before, outcome, assembly_index, cctor, 0),
                None => outcome is Continue && self.spec_frames() == before.spec_frames()
                    && self.spec_stack() == before.spec_stack(),
            }
        }
    }

    /// What a load of the static field `token` of the assembly at
    /// `assembly_index`, a load of its address or a store into it does where the
    /// field has been initialised. A load puts the value of the field on the
    /// operand stack, a load of the address a pointer to the field; a store takes
    /// the top value off the stack and gives it to the field, and changes no
    /// other field. The call goes on at `next`. A token that names no static
    /// field faults.
    pub open spec fn spec_static_law(
        &self,
        before: &Interpreter,
        outcome: Outcome,
        op: OpCode,
        assembly_index: usize,
        token: u32,
        next: int,
    ) -> bool {
        let fields = before.spec_assemblies()[assembly_index as int].fields@;
        let store = before.spec_statics()[assembly_index as int];
        let place = store.spec_index_of(token).unwrap() as int;
        if super::metadata::md_token::spec_table_type(token) != 0x04 || spec_rid(token) == 0 {
            outcome == Outcome::Fault(Fault::InvalidToken)
        } else if spec_rid(token) - 1 >= fields.len() {
            outcome == Outcome::Fault(Fault::InvalidIndex)
        } else if fields[spec_rid(token) - 1].flags & 0x0010 == 0 {
            outcome == Outcome::Fault(Fault::InvalidOperation)
        } else if op == OpCode::Stsfld {
            if before.spec_has_values(1) {
                &&& outcome is Continue
                &&& self.spec_popped(before, 1)
                &&& self.spec_statics().len() == before.spec_statics().len()
                &&& forall|k: int|
                    0 <= k < before.spec_statics().len() && k != assembly_index
                        ==> #[trigger] self.spec_statics()[k] == before.spec_statics()[k]
                &&& self.spec_statics()[assembly_index as int].spec_keys() == store.spec_keys()
                &&& self.spec_statics()[assembly_index as int].spec_values()
                    == store.spec_values().update(
                    place,
                    before.spec_stack()[before.spec_stack().len() - 1],
                )
                &&& self.spec_went_on(before, next)
                &&& self.spec_slots_same(before)
                &&& self.spec_objects() == before.spec_objects()
                &&& self.spec_strings() == before.spec_strings()
            } else {
                outcome == Outcome::Fault(Fault::StackUnderflow)
            }
        } else if before.spec_has_room() {
            &&& outcome is Continue
            &&& self.spec_pushed(
                before,
                if op == OpCode::Ldsfld {
                    store.spec_values()[place].view()
                } else {
                    ILTypeView::Ptr(ILPtr::Static(assembly_index, token))
                },
            )
            &&& self.spec_went_on(before, next)
            &&& self.spec_slots_same(before)
            &&& self.spec_heaps_same(before)
        } else {
            outcome == Outcome::Fault(Fault::StackOverflow)
        }
    }

    /// Reads, takes the address of, or writes the static field `token` of the
    /// assembly at `assembly_index`: kind 0 puts a copy of its value on the
    /// operand stack, kind 1 a pointer to it, every other kind takes a value off
    /// the stack into it.
    ///
    /// A field that has not been initialised is not touched by the step.
    /// Instead, every static field of the type that owns the field is given the
    /// zero value of its type, and the class constructor of the type, if it has
    /// one, is called; the instruction is taken again afterwards.
    fn op_static(&mut self, kind: u8, assembly_index: usize, token: u32, rip: usize) -> (outcome:
        Outcome)
        requires
            old(self).spec_frames().len() > 0,
        ensures
            final(self).spec_step_laws(old(self), outcome),
            !old(self).spec_static_ready(assembly_index as int, token) && outcome is Continue ==> {
                &&& final(self).spec_static_ready(assembly_index as int, token)
                &&& final(self).spec_stack().len() <= old(self).spec_stack().len()
                &&& final(self).spec_frames().len() >= old(self).spec_frames().len()
                &&& final(self).spec_frames()[old(self).spec_frames().len() - 1] == old(self).spec_top()
            },
            old(self).spec_static_ready(assembly_index as int, token) && outcome is Continue ==> {
                &&& final(self).spec_static_ready(assembly_index as int, token)
                &&& final(self).spec_frames().len() == old(self).spec_frames().len()
                &&& final(self).spec_top().rip == rip
            },
            assembly_index < old(self).spec_assemblies().len() && !old(self).spec_static_ready(
                assembly_index as int,
                token,
            ) ==> final(self).spec_static_init_law(old(self), outcome, assembly_index, token),
            kind <= 2 && assembly_index < old(self).spec_assemblies().len() && old(self).spec_static_ready(
                assembly_index as int,
                token,
            ) ==> final(self).spec_static_law(
                old(self),
                outcome,
                if kind == 0 {
                    OpCode::Ldsfld
                } else if kind == 1 {
                    OpCode::Ldsflda
                } else {
                    OpCode::Stsfld
                },
                assembly_index,
                token,
                rip as int,
            ),
            old(self).spec_refs_ok() ==> final(self).spec_refs_ok(),
    {
        let assembly: &Assembly = match self.assemblies.index_get(assembly_index) {
            Some(a) => a,
            None => {
                return Outcome::Fault(Fault::InvalidIndex);
            },
        };
        if MDToken::to_table_type(token) != 0x04 {
            return Outcome::Fault(Fault::InvalidToken);
        }
        let row: usize = match row_index(token) {
            Some(row) => row,
            None => {
                return Outcome::Fault(Fault::InvalidToken);
            },
        };
        if row >= assembly.fields.len() {
            return Outcome::Fault(Fault::InvalidIndex);
        }
        let field = &assembly.fields[row];
        if !field.is_static() {
            return Outcome::Fault(Fault::InvalidOperation);
        }
        if assembly_index >= self.static_fields.len() {
            return Outcome::Fault(Fault::InvalidIndex);
        }
        if !self.static_fields[assembly_index].contains(&token) {
            let owner: usize = field.owner_type as usize;
            let own_zero: ILType = zero_of(&field.signature);
            let mut zeros: Vec<(u32, ILType)> = Interpreter::static_zeros(assembly, owner);
            let cctor: Option<u32> = Interpreter::find_cctor(assembly, owner);
            let ghost before = *self;
            let ghost image = *assembly;
            let ghost all = zeros@;
            let ghost old_store = self.spec_statics()[assembly_index as int];
            let ghost objects = self.spec_objects().len() as int;
            let ghost strings = self.spec_strings().len() as int;
            self.static_fields[assembly_index].insert(token, own_zero);
            proof {
                if before.spec_refs_ok() {
                    Interpreter::lemma_values_put(
                        old_store.spec_values(),
                        self.spec_statics()[assembly_index as int].spec_values(),
                        own_zero,
                        0,
                        objects,
                        strings,
                    );
                    assert forall|a: int| 0 <= a < self.spec_statics().len() implies Interpreter::spec_values_ok(
                        (#[trigger] self.spec_statics()[a]).spec_values(),
                        objects,
                        strings,
                    ) by {
                        if a != assembly_index {
                            assert(self.spec_statics()[a] == before.spec_statics()[a]);
                        }
                    }
                }
            }
            while zeros.len() > 0
                invariant
                    objects == before.spec_objects().len(),
                    strings == before.spec_strings().len(),
                    before.spec_refs_ok() ==> forall|a: int|
                        0 <= a < self.spec_statics().len() ==> Interpreter::spec_values_ok(
                            (#[trigger] self.spec_statics()[a]).spec_values(),
                            objects,
                            strings,
                        ),
                    forall|j: int|
                        0 <= j < all.len() ==> (#[trigger] all[j]).1.view() is Val || all[j].1.view()
                            == ILTypeView::Ref(ILRefType::Null),
                    assembly_index < self.spec_statics().len(),
                    self.spec_statics()[assembly_index as int].spec_index_of(token).is_some(),
                    old_store == before.spec_statics()[assembly_index as int],
                    zeros@ == all.subrange(0, zeros@.len() as int),
                    zeros@.len() <= all.len(),
                    forall|j: int|
                        0 <= j < all.len() ==> Interpreter::spec_static_field(
                            image,
                            (#[trigger] all[j]).0,
                        ) && all[j].1.view() == Interpreter::spec_static_zero(image, all[j].0),
                    forall|j: int|
                        zeros@.len() <= j < all.len() ==> self.spec_statics()[assembly_index as int].spec_index_of(
                            (#[trigger] all[j]).0,
                        ).is_some(),
                    self.spec_statics().len() == before.spec_statics().len(),
                    forall|k: int|
                        0 <= k < before.spec_statics().len() && k != assembly_index
                            ==> #[trigger] self.spec_statics()[k] == before.spec_statics()[k],
                    self.spec_statics()[assembly_index as int].spec_well_formed(),
                    forall|t: u32|
                        (#[trigger] old_store.spec_index_of(t)).is_some() ==> self.spec_statics()[assembly_index as int].spec_index_of(
                            t,
                        ) == old_store.spec_index_of(t) && old_store.spec_index_of(t).unwrap()
                            < old_store.spec_values().len()
                            && self.spec_statics()[assembly_index as int].spec_values()[old_store.spec_index_of(
                            t,
                        ).unwrap() as int] == old_store.spec_values()[old_store.spec_index_of(
                            t,
                        ).unwrap() as int],
                    forall|t: u32|
                        old_store.spec_index_of(t).is_none() && (
                        #[trigger] self.spec_statics()[assembly_index as int].spec_index_of(
                            t,
                        )).is_some()
                            ==> self.spec_statics()[assembly_index as int].spec_values()[self.spec_statics()[assembly_index as int].spec_index_of(
                            t,
                        ).unwrap() as int].view() == Interpreter::spec_static_zero(image, t),
                    self.spec_assemblies() == before.spec_assemblies(),
                    forall|name: Seq<char>|
                        self.spec_assembly_index(name) == before.spec_assembly_index(name),
                    self.spec_stack() == before.spec_stack(),
                    self.spec_objects() == before.spec_objects(),
                    self.spec_strings() == before.spec_strings(),
                    self.spec_frames() == before.spec_frames(),
                    self.spec_ctx() == before.spec_ctx(),
                decreases zeros@.len(),
            {
                match zeros.pop() {
                    Some((field_token, zero)) => {
                        if !self.static_fields[assembly_index].contains(&field_token) {
                            let ghost store = self.spec_statics();
                            assert(zero == all[zeros@.len() as int].1);
                            self.static_fields[assembly_index].insert(field_token, zero);
                            proof {
                                if before.spec_refs_ok() {
                                    Interpreter::lemma_values_put(
                                        store[assembly_index as int].spec_values(),
                                        self.spec_statics()[assembly_index as int].spec_values(),
                                        zero,
                                        0,
                                        objects,
                                        strings,
                                    );
                                    assert forall|a: int|
                                        0 <= a < self.spec_statics().len() implies Interpreter::spec_values_ok(
                                        (#[trigger] self.spec_statics()[a]).spec_values(),
                                        objects,
                                        strings,
                                    ) by {
                                        if a != assembly_index {
                                            assert(self.spec_statics()[a] == store[a]);
                                        }
                                    }
                                }
                            }
                        }
                    },
                    None => {},
                }
            }
            proof {
                if before.spec_refs_ok() {
                    self.lemma_refs_statics(&before);
                }
            }
            return match cctor {
                Some(cctor_token) => {
                    let ghost mid = *self;
                    let outcome = self.do_call(assembly_index, cctor_token, None, Vec::new());
                    proof {
                        assert(self.spec_heap_grown(&mid));
                        if (owner as int) < image.type_defs.spec_values().len() {
                            Interpreter::lemma_cctor_named(
                                image.methods@,
                                image.type_defs.spec_values()[owner as int].method_list,
                                0,
                            );
                        }
                        reveal_strlit(".cctor");
                        reveal_strlit("WriteLine");
                        assert(".cctor"@.len() != "WriteLine"@.len());
                    }
                    match outcome {
                        Outcome::Continue => Outcome::Continue,
                        Outcome::Fault(f) => Outcome::Fault(f),
                        _ => Outcome::Fault(Fault::Unsupported),
                    }
                },
                None => Outcome::Continue,
            };
        }
        if kind == 0 {
            let value: ILType = match self.static_fields[assembly_index].key_get(&token) {
                Some(v) => v.duplicate(),
                None => {
                    return Outcome::Fault(Fault::InvalidIndex);
                },
            };
            self.op_push(value, rip)
        } else if kind == 1 {
            self.op_push(ILType::Ptr(ILPtr::Static(assembly_index, token)), rip)
        } else {
            let value: ILType = match self.pop() {
                Ok(v) => v,
                Err(f) => {
                    return Outcome::Fault(f);
                },
            };
            let ghost popped = *self;
            let ghost place = self.spec_statics()[assembly_index as int].spec_index_of(token);
            self.static_fields[assembly_index].insert(token, value);
            proof {
                if old(self).spec_refs_ok() {
                    assert(place == old(self).spec_statics()[assembly_index as int].spec_index_of(
                        token,
                    ));
                    assert(place is Some);
                    assert(place->Some_0 < old(self).spec_statics()[assembly_index as int].spec_values().len());
                    Interpreter::lemma_values_put(
                        popped.spec_statics()[assembly_index as int].spec_values(),
                        self.spec_statics()[assembly_index as int].spec_values(),
                        value,
                        match place {
                            Some(i) => i as int,
                            None => 0,
                        },
                        self.spec_objects().len() as int,
                        self.spec_strings().len() as int,
                    );
                    assert forall|a: int| 0 <= a < self.spec_statics().len() implies Interpreter::spec_values_ok(
                        (#[trigger] self.spec_statics()[a]).spec_values(),
                        self.spec_objects().len() as int,
                        self.spec_strings().len() as int,
                    ) by {
                        if a != assembly_index {
                            assert(self.spec_statics()[a] == popped.spec_statics()[a]);
                        }
                    }
                    self.lemma_refs_statics(&popped);
                }
            }
            self.set_rip(rip);
            proof {
                assert(self.spec_stack() =~= old(self).spec_stack().subrange(
                    0,
                    old(self).spec_stack().len() - 1,
                ));
            }
            Outcome::Continue
        }
    }

    /// The byte of the instruction that is executed next, if there is a call in
    /// progress and it stands within the code of its assembly.
    pub open spec fn spec_opcode(&self) -> Option<u8> {
        if self.spec_frames().len() > 0 && self.spec_top().assembly_index
            < self.spec_assemblies().len() && self.spec_top().rip < self.spec_code(
            self.spec_top().assembly_index as int,
        ).len() {
            Some(self.spec_code(self.spec_top().assembly_index as int)[self.spec_top().rip as int])
        } else {
            None
        }
    }

    /// The code that the executing call runs.
    pub open spec fn spec_top_code(&self) -> Seq<u8> {
        self.spec_code(self.spec_top().assembly_index as int)
    }

    /// The top value of the operand stack.
    pub open spec fn spec_stack_top(&self) -> ILTypeView {
        self.spec_stack()[self.spec_stack().len() - 1].view()
    }

    /// The executing call is the same as before and stands at `next`; the calls
    /// below it are as they were.
    pub open spec fn spec_went_on(&self, before: &Interpreter, next: int) -> bool {
        &&& self.spec_frames().len() == before.spec_frames().len()
        &&& self.spec_frames().len() > 0
        &&& self.spec_top().rip == next
        &&& self.spec_top().assembly_index == before.spec_top().assembly_index
        &&& self.spec_top().method_index == before.spec_top().method_index
        &&& self.spec_top().stack_base == before.spec_top().stack_base
        &&& self.spec_top().max_stack == before.spec_top().max_stack
        &&& self.spec_top().stack_id == before.spec_top().stack_id
        &&& forall|i: int|
            0 <= i < before.spec_frames().len() - 1 ==> self.spec_frames()[i]
                == before.spec_frames()[i]
    }

    /// The parameters and the local variables of the executing call are as they were.
    pub open spec fn spec_slots_same(&self, before: &Interpreter) -> bool {
        self.spec_top().params == before.spec_top().params && self.spec_top().locals
            == before.spec_top().locals
    }

    /// The operand stack holds one value more, `value`, on top of what it held.
    pub open spec fn spec_pushed(&self, before: &Interpreter, value: ILTypeView) -> bool {
        &&& self.spec_stack().len() == before.spec_stack().len() + 1
        &&& self.spec_stack().drop_last() == before.spec_stack()
        &&& self.spec_stack_top() == value
    }

    /// The operand stack holds what it held below its `count` top values.
    pub open spec fn spec_popped(&self, before: &Interpreter, count: int) -> bool {
        &&& before.spec_stack().len() >= count
        &&& self.spec_stack() == before.spec_stack().subrange(0, before.spec_stack().len() - count)
    }

    /// The operand stack holds `value` in place of its `count` top values.
    pub open spec fn spec_replaced(&self, before: &Interpreter, count: int, value: ILTypeView) -> bool {
        &&& before.spec_stack().len() >= count
        &&& self.spec_stack().len() == before.spec_stack().len() - count + 1
        &&& self.spec_stack().drop_last() == before.spec_stack().subrange(
            0,
            before.spec_stack().len() - count,
        )
        &&& self.spec_stack_top() == value
    }

    /// True where the executing method may put one more value on the operand stack.
    pub open spec fn spec_has_room(&self) -> bool {
        self.spec_stack().len() < self.spec_top().stack_base + self.spec_top().max_stack
    }

    /// True where the executing method has `count` values on the operand stack.
    pub open spec fn spec_has_values(&self, count: int) -> bool {
        self.spec_stack().len() >= self.spec_top().stack_base + count
    }

    /// The constant that `op` puts on the operand stack, and where the next
    /// instruction lies, for the instructions that load a constant.
    pub open spec fn spec_const_of(op: OpCode, code: Seq<u8>, after: int) -> Option<
        (ILTypeView, int),
    > {
        match op {
            OpCode::Ldnull => Some((ILTypeView::Ref(ILRefType::Null), after)),
            OpCode::Ldci4m1 => Some((ILTypeView::Val(ILValType::Int32(-1i32)), after)),
            OpCode::Ldci40 => Some((ILTypeView::Val(ILValType::Int32(0)), after)),
            OpCode::Ldci41 => Some((ILTypeView::Val(ILValType::Int32(1)), after)),
            OpCode::Ldci42 => Some((ILTypeView::Val(ILValType::Int32(2)), after)),
            OpCode::Ldci43 => Some((ILTypeView::Val(ILValType::Int32(3)), after)),
            OpCode::Ldci44 => Some((ILTypeView::Val(ILValType::Int32(4)), after)),
            OpCode::Ldci45 => Some((ILTypeView::Val(ILValType::Int32(5)), after)),
            OpCode::Ldci46 => Some((ILTypeView::Val(ILValType::Int32(6)), after)),
            OpCode::Ldci47 => Some((ILTypeView::Val(ILValType::Int32(7)), after)),
            OpCode::Ldci48 => Some((ILTypeView::Val(ILValType::Int32(8)), after)),
            OpCode::Ldci4s => Some(
                (
                    ILTypeView::Val(ILValType::Int32(Interpreter::spec_i8(code[after]) as i32)),
                    after + 1,
                ),
            ),
            OpCode::Ldci4 => Some(
                (
                    ILTypeView::Val(
                        ILValType::Int32(
                            Interpreter::spec_i32(spec_u32_le(code, after) as u32) as i32,
                        ),
                    ),
                    after + 4,
                ),
            ),
            OpCode::Ldci8 => Some(
                (
                    ILTypeView::Val(
                        ILValType::Int64(
                            Interpreter::spec_i64(spec_u64_le(code, after) as u64) as i64,
                        ),
                    ),
                    after + 8,
                ),
            ),
            OpCode::Ldcr4 => Some(
                (ILTypeView::Val(ILValType::Single(spec_u32_le(code, after) as u32)), after + 4),
            ),
            OpCode::Ldcr8 => Some(
                (ILTypeView::Val(ILValType::Double(spec_u64_le(code, after) as u64)), after + 8),
            ),
            _ => None,
        }
    }

    /// What an instruction that works on a parameter or a local variable does:
    /// whether it loads (0), stores (1) or takes the address (2), whether it works
    /// on a local variable, the place of the slot, and where the next instruction
    /// lies.
    pub open spec fn spec_slot_of(op: OpCode, code: Seq<u8>, after: int) -> Option<
        (int, bool, int, int),
    > {
        match op {
            OpCode::Ldarg0 => Some((0, false, 0, after)),
            OpCode::Ldarg1 => Some((0, false, 1, after)),
            OpCode::Ldarg2 => Some((0, false, 2, after)),
            OpCode::Ldarg3 => Some((0, false, 3, after)),
            OpCode::Ldloc0 => Some((0, true, 0, after)),
            OpCode::Ldloc1 => Some((0, true, 1, after)),
            OpCode::Ldloc2 => Some((0, true, 2, after)),
            OpCode::Ldloc3 => Some((0, true, 3, after)),
            OpCode::Stloc0 => Some((1, true, 0, after)),
            OpCode::Stloc1 => Some((1, true, 1, after)),
            OpCode::Stloc2 => Some((1, true, 2, after)),
            OpCode::Stloc3 => Some((1, true, 3, after)),
            OpCode::Ldargs => Some((0, false, code[after] as int, after + 1)),
            OpCode::Ldargas => Some((2, false, code[after] as int, after + 1)),
            OpCode::Stargs => Some((1, false, code[after] as int, after + 1)),
            OpCode::Ldlocs => Some((0, true, code[after] as int, after + 1)),
            OpCode::Ldlocas => Some((2, true, code[after] as int, after + 1)),
            OpCode::Stlocs => Some((1, true, code[after] as int, after + 1)),
            _ => None,
        }
    }

    /// What a step that loaded, stored or took the address of slot `index` did.
    pub open spec fn spec_slot_effect(
        &self,
        before: &Interpreter,
        kind: int,
        local: bool,
        index: int,
        next: int,
    ) -> bool {
        let slots = if local {
            before.spec_top().locals@
        } else {
            before.spec_top().params@
        };
        let slots_after = if local {
            self.spec_top().locals@
        } else {
            self.spec_top().params@
        };
        &&& self.spec_went_on(before, next)
        &&& self.spec_heaps_same(before)
        &&& kind == 0 ==> 0 <= index < slots.len() && self.spec_pushed(
            before,
            slots[index].view(),
        ) && self.spec_slots_same(before)
        &&& kind == 1 ==> 0 <= index < slots.len() && self.spec_popped(before, 1) && slots_after
            == slots.update(index, before.spec_stack()[before.spec_stack().len() - 1]) && (
        if local {
            self.spec_top().params == before.spec_top().params
        } else {
            self.spec_top().locals == before.spec_top().locals
        })
        &&& kind == 2 ==> self.spec_pushed(
            before,
            ILTypeView::Ptr(
                if local {
                    ILPtr::Local(before.spec_top().stack_id, index as usize)
                } else {
                    ILPtr::Param(before.spec_top().stack_id, index as usize)
                },
            ),
        ) && self.spec_slots_same(before)
    }

    /// True where a load of a slot (kind 0), a store into it (kind 1) or a load of
    /// its address (kind 2) succeeds: the slot is there, and the operand stack has
    /// room for the value, or the value for the slot.
    pub open spec fn spec_slot_ok(before: &Interpreter, kind: int, local: bool, index: int) -> bool {
        let slots = if local {
            before.spec_top().locals@
        } else {
            before.spec_top().params@
        };
        if kind == 0 {
            0 <= index < slots.len() && before.spec_has_room()
        } else if kind == 1 {
            0 <= index < slots.len() && before.spec_has_values(1)
        } else {
            before.spec_has_room()
        }
    }

    /// The number of the operator of an arithmetic instruction: 0 for the sum, 1
    /// for the difference, 2, 3 and 4 for the common bits, the bits of either and
    /// the bits of exactly one.
    pub open spec fn spec_binary_of(op: OpCode) -> Option<u8> {
        match op {
            OpCode::Add => Some(0u8),
            OpCode::Sub => Some(1u8),
            OpCode::And => Some(2u8),
            OpCode::Or => Some(3u8),
            OpCode::Xor => Some(4u8),
            _ => None,
        }
    }

    /// What a step that executed the arithmetic operator `kind` on the two top
    /// values of the operand stack did: the result takes their place; two
    /// floating-point numbers are taken off and handed to the host; operands that
    /// the operator is not defined on stop the program.
    pub open spec fn spec_binary_effect(
        &self,
        before: &Interpreter,
        outcome: Outcome,
        kind: u8,
        next: int,
    ) -> bool {
        let a = before.spec_stack()[before.spec_stack().len() - 2].view();
        let b = before.spec_stack()[before.spec_stack().len() - 1].view();
        if kind <= 1 {
            match ILType::spec_add(a, b, kind == 1) {
                super::il_type::BinaryOutcomeView::Value(v) => outcome is Continue
                    && self.spec_replaced(before, 2, v) && self.spec_went_on(before, next),
                super::il_type::BinaryOutcomeView::Float { wide, lhs, rhs } => outcome
                    == (Outcome::FloatBinary { subtract: kind == 1, wide, lhs, rhs })
                    && self.spec_popped(before, 2) && self.spec_went_on(before, next),
                super::il_type::BinaryOutcomeView::Invalid => outcome == Outcome::Fault(
                    Fault::InvalidOperation,
                ),
            }
        } else {
            match ILType::spec_bitwise(a, b, (kind - 2) as u8) {
                Some(v) => outcome is Continue && self.spec_replaced(before, 2, v)
                    && self.spec_went_on(before, next),
                None => outcome == Outcome::Fault(Fault::InvalidOperation),
            }
        }
    }

    /// What holds of a step that executed an instruction that loads a constant,
    /// works on a slot or on the operand stack alone, or computes.
    pub open spec fn spec_simple_laws(
        &self,
        before: &Interpreter,
        outcome: Outcome,
        op: OpCode,
        after: int,
    ) -> bool {
        let code = before.spec_top_code();
        &&& match Interpreter::spec_const_of(op, code, after) {
            Some((value, next)) => if next <= code.len() {
                &&& outcome is Continue <==> before.spec_has_room()
                &&& outcome is Continue ==> self.spec_pushed(before, value) && self.spec_went_on(
                    before,
                    next,
                ) && self.spec_slots_same(before) && self.spec_heaps_same(before)
                &&& !(outcome is Continue) ==> outcome == Outcome::Fault(Fault::StackOverflow)
            } else {
                outcome == Outcome::Fault(Fault::CodeOutOfBounds)
            },
            None => true,
        }
        &&& match Interpreter::spec_slot_of(op, code, after) {
            Some((kind, local, index, next)) => if next <= code.len() {
                &&& outcome is Continue ==> self.spec_slot_effect(before, kind, local, index, next)
                &&& outcome is Continue <==> Interpreter::spec_slot_ok(before, kind, local, index)
                &&& outcome is Continue || outcome is Fault
            } else {
                outcome == Outcome::Fault(Fault::CodeOutOfBounds)
            },
            None => true,
        }
        &&& (op == OpCode::Nop || op == OpCode::Break) ==> outcome is Continue
            && self.spec_went_on(before, after) && self.spec_stack() == before.spec_stack()
            && self.spec_slots_same(before) && self.spec_heaps_same(before)
        &&& op == OpCode::Pop ==> (outcome is Continue <==> before.spec_has_values(1)) && (
        outcome is Continue ==> self.spec_popped(before, 1) && self.spec_went_on(before, after)
            && self.spec_slots_same(before) && self.spec_heaps_same(before)) && (!(outcome
            is Continue) ==> outcome == Outcome::Fault(Fault::StackUnderflow))
        &&& op == OpCode::Dup ==> (outcome is Continue <==> before.spec_has_values(1)
            && before.spec_has_room()) && (outcome is Continue || outcome is Fault)
        &&& op == OpCode::Convu ==> (before.spec_depth_ok() ==> (outcome is Continue
            <==> before.spec_has_values(1) && before.spec_stack_top() is Val)) && (outcome
            is Continue || outcome is Fault)
        &&& op == OpCode::Dup ==> (outcome is Continue ==> before.spec_has_values(1)
            && self.spec_pushed(before, before.spec_stack_top()) && self.spec_went_on(
            before,
            after,
        ) && self.spec_slots_same(before) && self.spec_heaps_same(before))
        &&& match Interpreter::spec_binary_of(op) {
            Some(kind) => before.spec_depth_ok() && before.spec_has_values(2)
                ==> self.spec_binary_effect(before, outcome, kind, after)
                && self.spec_heaps_same(before),
            None => true,
        }
        &&& op == OpCode::Convu && outcome is Continue ==> before.spec_has_values(1)
            && before.spec_stack_top() is Val && self.spec_replaced(
            before,
            1,
            ILTypeView::Val(
                ILValType::Isize(
                    Interpreter::spec_as_isize(before.spec_stack_top()->Val_0.spec_to_usize()),
                ),
            ),
        ) && self.spec_went_on(before, after) && self.spec_heaps_same(before)
    }

    /// The number `v` read as a signed number of the size of a pointer.
    pub open spec fn spec_as_isize(v: usize) -> isize {
        if v <= isize::MAX {
            v as isize
        } else {
            (v - usize::MAX - 1) as isize
        }
    }

    /// True where a conditional branch succeeds: the executing method has a value
    /// on the operand stack, and the place that the branch leads to, where it is
    /// taken, can be counted.
    pub open spec fn spec_branch_if_ok(
        before: &Interpreter,
        on_false: bool,
        offset: int,
        next: int,
    ) -> bool {
        &&& before.spec_has_values(1)
        &&& ILType::spec_is_false_type(before.spec_stack_top()) == on_false ==> 0 <= next + offset
            <= usize::MAX
    }

    /// What a conditional branch does where it succeeds: the top value of the
    /// operand stack is taken off, and the call goes on `offset` bytes from `next`
    /// where the value counts as false, or, where `on_false` does not hold, where
    /// it does not; else at `next`.
    pub open spec fn spec_branch_if_effect(
        &self,
        before: &Interpreter,
        on_false: bool,
        offset: int,
        next: int,
    ) -> bool {
        &&& before.spec_has_values(1)
        &&& self.spec_popped(before, 1)
        &&& self.spec_went_on(
            before,
            if ILType::spec_is_false_type(before.spec_stack_top()) == on_false {
                next + offset
            } else {
                next
            },
        )
        &&& self.spec_slots_same(before)
        &&& self.spec_heaps_same(before)
    }

    /// What an instruction of two bytes that works on a parameter or a local
    /// variable does; see `spec_slot_of`.
    pub open spec fn spec_slot2_of(op: OpCode2, code: Seq<u8>, after: int) -> Option<
        (int, bool, int, int),
    > {
        match op {
            OpCode2::Ldarg => Some((0, false, spec_u16_le(code, after), after + 2)),
            OpCode2::Ldarga => Some((2, false, spec_u16_le(code, after), after + 2)),
            OpCode2::Starg => Some((1, false, spec_u16_le(code, after), after + 2)),
            OpCode2::Ldloc => Some((0, true, spec_u16_le(code, after), after + 2)),
            OpCode2::Ldloca => Some((2, true, spec_u16_le(code, after), after + 2)),
            OpCode2::Stloc => Some((1, true, spec_u16_le(code, after), after + 2)),
            _ => None,
        }
    }

    /// The number of the question of a comparison: 0 for equal, 1 for greater, 2
    /// for less.
    pub open spec fn spec_compare_of(op: OpCode2) -> Option<u8> {
        match op {
            OpCode2::Ceq => Some(0u8),
            OpCode2::Cgt => Some(1u8),
            OpCode2::Clt => Some(2u8),
            _ => None,
        }
    }

    /// What holds of a step that executed the instruction of two bytes `op`,
    /// whose operands start at `after`.
    pub open spec fn spec_extended_laws(
        &self,
        before: &Interpreter,
        outcome: Outcome,
        op: OpCode2,
        after: int,
    ) -> bool {
        let code = before.spec_top_code();
        &&& match Interpreter::spec_compare_of(op) {
            Some(kind) => before.spec_depth_ok() && before.spec_has_values(2)
                ==> match Interpreter::spec_compare_result(
                kind,
                before.spec_stack()[before.spec_stack().len() - 2].view(),
                before.spec_stack()[before.spec_stack().len() - 1].view(),
            ) {
                Some(v) => outcome is Continue && self.spec_replaced(
                    before,
                    2,
                    ILTypeView::Val(ILValType::Int32(v)),
                ) && self.spec_went_on(before, after) && self.spec_slots_same(before)
                    && self.spec_heaps_same(before),
                None => outcome == Outcome::Fault(Fault::InvalidOperation),
            },
            None => true,
        }
        &&& match Interpreter::spec_slot2_of(op, code, after) {
            Some((kind, local, index, next)) => if next <= code.len() {
                &&& outcome is Continue ==> self.spec_slot_effect(before, kind, local, index, next)
                &&& outcome is Continue <==> Interpreter::spec_slot_ok(before, kind, local, index)
                &&& outcome is Continue || outcome is Fault
            } else {
                outcome == Outcome::Fault(Fault::CodeOutOfBounds)
            },
            None => true,
        }
        &&& op == OpCode2::Localloc ==> (before.spec_depth_ok() ==> (outcome is Continue
            <==> before.spec_has_values(1) && before.spec_stack_top() is Val)) && (outcome
            is Continue || outcome is Fault)
        &&& op == OpCode2::Localloc && outcome is Continue ==> before.spec_has_values(1)
            && before.spec_stack_top() is Val && self.spec_replaced(
            before,
            1,
            ILTypeView::NPtr(
                Some(
                    Seq::new(
                        before.spec_stack_top()->Val_0.spec_to_usize() as nat,
                        |i: int| 0u8,
                    ),
                ),
                0,
            ),
        ) && self.spec_went_on(before, after) && self.spec_heaps_same(before)
        &&& Interpreter::spec_compare_of(op).is_none() && Interpreter::spec_slot2_of(
            op,
            code,
            after,
        ).is_none() && op != OpCode2::Localloc ==> outcome == Outcome::Fault(Fault::Unsupported)
            && self.spec_same(before)
    }

    /// What holds of a step that executed a conditional branch, a call, a
    /// return or an instruction of two bytes.
    pub open spec fn spec_flow_laws(
        &self,
        before: &Interpreter,
        outcome: Outcome,
        op: OpCode,
        after: int,
    ) -> bool {
        let code = before.spec_top_code();
        &&& (op == OpCode::Brfalses || op == OpCode::Brtrues) ==> if after + 1 <= code.len() {
            &&& outcome is Continue ==> self.spec_branch_if_effect(
                before,
                op == OpCode::Brfalses,
                Interpreter::spec_i8(code[after]),
                after + 1,
            )
            &&& outcome is Continue <==> Interpreter::spec_branch_if_ok(
                before,
                op == OpCode::Brfalses,
                Interpreter::spec_i8(code[after]),
                after + 1,
            )
            &&& outcome is Continue || outcome is Fault
        } else {
            outcome == Outcome::Fault(Fault::CodeOutOfBounds)
        }
        &&& (op == OpCode::Brfalse || op == OpCode::Brtrue) ==> if after + 4 <= code.len() {
            &&& outcome is Continue ==> self.spec_branch_if_effect(
                before,
                op == OpCode::Brfalse,
                Interpreter::spec_i32(spec_u32_le(code, after) as u32),
                after + 4,
            )
            &&& outcome is Continue <==> Interpreter::spec_branch_if_ok(
                before,
                op == OpCode::Brfalse,
                Interpreter::spec_i32(spec_u32_le(code, after) as u32),
                after + 4,
            )
            &&& outcome is Continue || outcome is Fault
        } else {
            outcome == Outcome::Fault(Fault::CodeOutOfBounds)
        }
        &&& op == OpCode::Ret ==> {
            &&& before.spec_frames().len() == 1 <==> outcome is Finished
            &&& self.spec_frames().len() == before.spec_frames().len() - 1
            &&& forall|i: int|
                0 <= i < self.spec_frames().len() ==> self.spec_frames()[i]
                    == before.spec_frames()[i]
            &&& self.spec_stack() == before.spec_stack()
            &&& self.spec_objects() == before.spec_objects()
            &&& self.spec_strings() == before.spec_strings()
            &&& self.spec_statics() == before.spec_statics()
            &&& self.spec_assemblies() == before.spec_assemblies()
        }
        &&& (op == OpCode::Call || op == OpCode::Callvirt) ==> if after + 4 <= code.len() {
            &&& self.spec_call_effect(
                before,
                outcome,
                Some((after + 4) as usize),
                Seq::<ILType>::empty(),
            )
            &&& self.spec_call_target(
                before,
                outcome,
                before.spec_top().assembly_index,
                spec_u32_le(code, after) as u32,
                0,
            )
            &&& self.spec_objects() == before.spec_objects()
            &&& self.spec_strings() == before.spec_strings()
            &&& self.spec_statics() == before.spec_statics()
            &&& self.spec_assemblies() == before.spec_assemblies()
        } else {
            outcome == Outcome::Fault(Fault::CodeOutOfBounds)
        }
        &&& op == OpCode::Jmp ==> if after + 4 <= code.len() {
            self.spec_jmp_law(
                before,
                outcome,
                before.spec_top().assembly_index,
                spec_u32_le(code, after) as u32,
            )
        } else {
            outcome == Outcome::Fault(Fault::CodeOutOfBounds)
        }
        &&& op == OpCode::Next ==> if after + 1 <= code.len() {
            match OpCode2::spec_from_code(code[after] as int) {
                Some(op2) => self.spec_extended_laws(before, outcome, op2, after + 1),
                None => outcome == Outcome::Fault(Fault::UnknownOpcode),
            }
        } else {
            outcome == Outcome::Fault(Fault::CodeOutOfBounds)
        }
        &&& Interpreter::spec_group(op) == 0 ==> outcome == Outcome::Fault(Fault::Unsupported)
            && self.spec_same(before)
    }

    /// What holds of a step that put a string or a box into a heap, or made an
    /// object.
    pub open spec fn spec_heap_laws(
        &self,
        before: &Interpreter,
        outcome: Outcome,
        op: OpCode,
        after: int,
    ) -> bool {
        let code = before.spec_top_code();
        let token = spec_u32_le(code, after) as u32;
        let assembly = before.spec_assemblies()[before.spec_top().assembly_index as int];
        &&& op == OpCode::Ldstr && after + 4 <= code.len() ==> (outcome is Continue
            <==> before.spec_has_room() && super::metadata::blob_stream::spec_blob_error(
            assembly.metadata.us_stream.bytes(),
            spec_rid(token) as int,
        ).is_none()) && (outcome is Continue || outcome is Fault)
        &&& op == OpCode::Box && after + 4 <= code.len() && before.spec_depth_ok() ==> (outcome
            is Continue <==> before.spec_has_values(1)) && (outcome is Continue || outcome
            is Fault)
        &&& op == OpCode::Ldstr && after + 4 <= code.len() && outcome is Continue ==> {
            let offset = spec_rid(token) as int;
            let heap = assembly.metadata.us_stream.bytes();
            &&& self.spec_strings() == before.spec_strings().push(
                self.spec_strings()[before.spec_strings().len() as int],
            )
            &&& super::metadata::blob_stream::spec_blob_error(heap, offset).is_none()
            &&& self.spec_strings()[before.spec_strings().len() as int]@ == (if offset == 0 {
                Seq::<char>::empty()
            } else {
                super::metadata::us_stream::spec_utf16_lossy(
                    super::metadata::us_stream::spec_utf16_units(
                        super::metadata::blob_stream::spec_blob(heap, offset),
                    ),
                )
            })
            &&& self.spec_pushed(
                before,
                ILTypeView::Ref(ILRefType::String(before.spec_strings().len() as usize)),
            )
            &&& self.spec_went_on(before, after + 4)
            &&& self.spec_slots_same(before)
            &&& self.spec_objects() == before.spec_objects()
            &&& self.spec_statics() == before.spec_statics()
        }
        &&& op == OpCode::Box && after + 4 <= code.len() && outcome is Continue ==> {
            &&& before.spec_has_values(1)
            &&& self.spec_objects() == before.spec_objects().push(
                self.spec_objects()[before.spec_objects().len() as int],
            )
            &&& self.spec_objects()[before.spec_objects().len() as int].spec_origin() == token
            &&& self.spec_objects()[before.spec_objects().len() as int].spec_type_token() == token
            &&& self.spec_objects()[before.spec_objects().len() as int].spec_box_value() == Some(
                before.spec_stack()[before.spec_stack().len() - 1],
            )
            &&& self.spec_replaced(
                before,
                1,
                ILTypeView::Ref(ILRefType::Object(before.spec_objects().len() as usize)),
            )
            &&& self.spec_went_on(before, after + 4)
            &&& self.spec_slots_same(before)
            &&& self.spec_strings() == before.spec_strings()
            &&& self.spec_statics() == before.spec_statics()
        }
        &&& op == OpCode::Newobj && after + 4 <= code.len() ==> self.spec_newobj_law(
            before,
            outcome,
            before.spec_top().assembly_index,
            token,
            after + 4,
        )
        &&& op == OpCode::Newobj && after + 4 <= code.len() && outcome is Continue ==> {
            &&& self.spec_objects() == before.spec_objects().push(
                self.spec_objects()[before.spec_objects().len() as int],
            )
            &&& self.spec_objects()[before.spec_objects().len() as int].spec_box_value().is_none()
            &&& self.spec_objects()[before.spec_objects().len() as int].spec_origin()
                == self.spec_objects()[before.spec_objects().len() as int].spec_type_token()
            &&& super::metadata::md_token::spec_table_type(token) == 0x06 ==> spec_rid(token) >= 1
                && spec_rid(token) - 1 < assembly.methods@.len() && self.spec_objects()[before.spec_objects().len() as int].spec_origin()
                == 0x0200_0001 + assembly.methods@[spec_rid(token) - 1].owner_type
            &&& Interpreter::spec_made(
                before,
                self.spec_objects()[before.spec_objects().len() as int],
                before.spec_top().assembly_index,
                token,
            )
            &&& self.spec_strings() == before.spec_strings()
            &&& self.spec_statics() == before.spec_statics()
        }
    }

    /// What holds of a step that executed the instruction `op`, whose operands
    /// start at `after`, beyond what holds of every step.
    pub open spec fn spec_op_laws(
        &self,
        before: &Interpreter,
        outcome: Outcome,
        op: OpCode,
        after: int,
    ) -> bool {
        let code = before.spec_top_code();
        &&& op == OpCode::Brs ==> if after + 1 <= code.len() {
            self.spec_branch_law(before, outcome, after + 1 + Interpreter::spec_i8(code[after]))
        } else {
            outcome == Outcome::Fault(Fault::CodeOutOfBounds)
        }
        &&& op == OpCode::Br ==> if after + 4 <= code.len() {
            self.spec_branch_law(
                before,
                outcome,
                after + 4 + Interpreter::spec_i32(spec_u32_le(code, after) as u32),
            )
        } else {
            outcome == Outcome::Fault(Fault::CodeOutOfBounds)
        }
        &&& op == OpCode::Switch ==> if after + 4 <= code.len() {
            self.spec_switch_law(before, outcome, code, spec_u32_le(code, after) as u32, after + 4)
        } else {
            outcome == Outcome::Fault(Fault::CodeOutOfBounds)
        }
        &&& op == OpCode::Brs && outcome is Continue ==> self.spec_frames().len()
            == before.spec_frames().len() && self.spec_top().rip == after + 1 + Interpreter::spec_i8(
            code[after],
        )
        &&& op == OpCode::Br && outcome is Continue ==> self.spec_frames().len()
            == before.spec_frames().len() && self.spec_top().rip == after + 4 + Interpreter::spec_i32(
            spec_u32_le(code, after) as u32,
        )
        &&& op == OpCode::Switch && outcome is Continue ==> {
            let n = spec_u32_le(code, after) as u32;
            let index = before.spec_stack_top()->Val_0.spec_to_u32();
            let end = after + 4 + 4 * n;
            &&& before.spec_stack().len() > 0
            &&& before.spec_stack_top() is Val
            &&& self.spec_frames().len() == before.spec_frames().len()
            &&& self.spec_top().rip == (if index < n {
                end + Interpreter::spec_i32(spec_u32_le(code, after + 4 + 4 * index) as u32)
            } else {
                end
            })
        }
        &&& op == OpCode::Ldfld && before.spec_depth_ok() && after + 4 <= code.len()
            && before.spec_stack().len() > before.spec_top().stack_base
            && before.spec_stack_top() == ILTypeView::Ref(ILRefType::Null) ==> outcome
            == Outcome::Fault(Fault::NullReference)
        &&& op == OpCode::Stfld && after + 4 <= code.len() && before.spec_stack().len()
            >= before.spec_top().stack_base + 2 && before.spec_stack()[before.spec_stack().len()
            - 2].view() == ILTypeView::Ref(ILRefType::Null) ==> outcome == Outcome::Fault(
            Fault::NullReference,
        )
        &&& op == OpCode::Stfld && after + 4 <= code.len() && before.spec_stack().len()
            >= before.spec_top().stack_base + 2 ==> self.spec_store_law(
            before,
            outcome,
            spec_u32_le(code, after) as u32,
            after + 4,
        )
        &&& op == OpCode::Ldfld && before.spec_depth_ok() && after + 4 <= code.len()
            && before.spec_stack().len() > before.spec_top().stack_base ==> match Interpreter::spec_load_field(
            before.spec_objects(),
            before.spec_stack_top(),
            spec_u32_le(code, after) as u32,
        ) {
            Ok(v) => outcome is Continue && self.spec_stack().len() == before.spec_stack().len()
                && self.spec_stack_top() == v.view() && self.spec_frames().len()
                == before.spec_frames().len() && self.spec_top().rip == after + 4
                && self.spec_replaced(before, 1, v.view()) && self.spec_went_on(before, after + 4)
                && self.spec_slots_same(before) && self.spec_heaps_same(before),
            Err(f) => outcome == Outcome::Fault(f),
        }
        &&& op == OpCode::Unboxany && before.spec_depth_ok() && after + 4 <= code.len()
            && before.spec_stack().len() > before.spec_top().stack_base ==> match Interpreter::spec_unbox(
            before.spec_objects(),
            before.spec_stack_top(),
            spec_u32_le(code, after) as u32,
        ) {
            Ok(v) => outcome is Continue && self.spec_stack_top() == v.view()
                && self.spec_replaced(before, 1, v.view()) && self.spec_went_on(before, after + 4)
                && self.spec_slots_same(before) && self.spec_heaps_same(before),
            Err(f) => outcome == Outcome::Fault(f),
        }
        &&& (op == OpCode::Ldsfld || op == OpCode::Ldsflda || op == OpCode::Stsfld) && after + 4
            <= code.len() && outcome is Continue ==> {
            let token = spec_u32_le(code, after) as u32;
            let assembly_index = before.spec_top().assembly_index as int;
            &&& self.spec_static_ready(assembly_index, token)
            &&& before.spec_static_ready(assembly_index, token) ==> self.spec_frames().len()
                == before.spec_frames().len() && self.spec_top().rip == after + 4
            &&& !before.spec_static_ready(assembly_index, token) ==> self.spec_stack().len()
                <= before.spec_stack().len() && self.spec_frames().len()
                >= before.spec_frames().len() && self.spec_frames()[before.spec_frames().len()
                - 1] == before.spec_top()
        }
        &&& (op == OpCode::Ldsfld || op == OpCode::Ldsflda || op == OpCode::Stsfld) && after + 4
            <= code.len() && before.spec_static_ready(
            before.spec_top().assembly_index as int,
            spec_u32_le(code, after) as u32,
        ) ==> self.spec_static_law(
            before,
            outcome,
            op,
            before.spec_top().assembly_index,
            spec_u32_le(code, after) as u32,
            after + 4,
        )
        &&& (op == OpCode::Ldsfld || op == OpCode::Ldsflda || op == OpCode::Stsfld) && after + 4
            <= code.len() && !before.spec_static_ready(
            before.spec_top().assembly_index as int,
            spec_u32_le(code, after) as u32,
        ) ==> self.spec_static_init_law(
            before,
            outcome,
            before.spec_top().assembly_index,
            spec_u32_le(code, after) as u32,
        )
        &&& op == OpCode::Castclass && after + 4 <= code.len() && before.spec_stack().len()
            > before.spec_top().stack_base ==> {
            let top = before.spec_stack_top();
            &&& !(top is Ref) ==> outcome == Outcome::Fault(Fault::InvalidCast)
            &&& top == ILTypeView::Ref(ILRefType::Null) ==> outcome is Continue
            &&& top is Ref && top->Ref_0 is String ==> outcome is Continue
            &&& outcome is Continue ==> self.spec_stack() == before.spec_stack()
                && self.spec_went_on(before, after + 4) && self.spec_slots_same(before)
                && self.spec_strings() == before.spec_strings() && self.spec_statics()
                == before.spec_statics() && self.spec_objects().len()
                == before.spec_objects().len()
            &&& top is Ref && top->Ref_0 is Object && outcome is Continue ==> top->Ref_0->Object_0
                < self.spec_objects().len() && self.spec_objects()[top->Ref_0->Object_0 as int].spec_type_token()
                == spec_u32_le(code, after) as u32
            &&& top is Ref && top->Ref_0 is Object ==> if top->Ref_0->Object_0
                < before.spec_objects().len() {
                self.spec_cast_law(
                    before,
                    outcome,
                    before.spec_top().assembly_index,
                    top->Ref_0->Object_0 as int,
                    spec_u32_le(code, after) as u32,
                )
            } else {
                outcome == Outcome::Fault(Fault::InvalidIndex)
            }
        }
    }

    /// The group of instructions that `op` belongs to; zero for an instruction
    /// that is known and not carried out.
    pub open spec fn spec_group(op: OpCode) -> int {
        match op {
            OpCode::Brs
            | OpCode::Br
            | OpCode::Switch
            | OpCode::Castclass
            | OpCode::Ldfld
            | OpCode::Stfld
            | OpCode::Unboxany
            | OpCode::Ldsfld
            | OpCode::Ldsflda
            | OpCode::Stsfld => 1,
            OpCode::Ldarg0
            | OpCode::Ldarg1
            | OpCode::Ldarg2
            | OpCode::Ldarg3
            | OpCode::Ldloc0
            | OpCode::Ldloc1
            | OpCode::Ldloc2
            | OpCode::Ldloc3
            | OpCode::Stloc0
            | OpCode::Stloc1
            | OpCode::Stloc2
            | OpCode::Stloc3
            | OpCode::Ldargs
            | OpCode::Ldargas
            | OpCode::Stargs
            | OpCode::Ldlocs
            | OpCode::Ldlocas
            | OpCode::Stlocs => 2,
            OpCode::Nop
            | OpCode::Break
            | OpCode::Ldnull
            | OpCode::Ldci4m1
            | OpCode::Ldci40
            | OpCode::Ldci41
            | OpCode::Ldci42
            | OpCode::Ldci43
            | OpCode::Ldci44
            | OpCode::Ldci45
            | OpCode::Ldci46
            | OpCode::Ldci47
            | OpCode::Ldci48
            | OpCode::Ldci4s
            | OpCode::Ldci4
            | OpCode::Ldci8
            | OpCode::Ldcr4
            | OpCode::Ldcr8
            | OpCode::Dup
            | OpCode::Pop => 3,
            OpCode::Jmp
            | OpCode::Call
            | OpCode::Callvirt
            | OpCode::Ret
            | OpCode::Brfalses
            | OpCode::Brtrues
            | OpCode::Brfalse
            | OpCode::Brtrue
            | OpCode::Next => 4,
            OpCode::Add
            | OpCode::Sub
            | OpCode::And
            | OpCode::Or
            | OpCode::Xor
            | OpCode::Ldstr
            | OpCode::Newobj
            | OpCode::Box
            | OpCode::Convu => 5,
            _ => 0,
        }
    }

    /// Executes a branch, a switch, a field access, an unboxing or a cast.
    fn dispatch_lawful(&mut self, op: OpCode, assembly_index: usize, after: usize) -> (outcome:
        Outcome)
        requires
            old(self).spec_frames().len() > 0,
            Interpreter::spec_group(op) == 1,
            old(self).spec_top().assembly_index == assembly_index,
            assembly_index < old(self).spec_assemblies().len(),
            after <= old(self).spec_top_code().len(),
        ensures
            final(self).spec_step_laws(old(self), outcome),
            final(self).spec_op_laws(old(self), outcome, op, after as int),
            old(self).spec_refs_ok() ==> final(self).spec_refs_ok(),
    {
        let mut rip: usize = after;
        match op {
            OpCode::Brs => match self.code_u8(assembly_index, &mut rip) {
                Ok(b) => self.op_branch(Interpreter::as_i8(b), rip),
                Err(f) => Outcome::Fault(f),
            },
            OpCode::Br => match self.code_u32(assembly_index, &mut rip) {
                Ok(v) => self.op_branch(Interpreter::as_i32(v), rip),
                Err(f) => Outcome::Fault(f),
            },
            OpCode::Switch => match self.code_u32(assembly_index, &mut rip) {
                Ok(n) => self.op_switch(assembly_index, n, rip),
                Err(f) => Outcome::Fault(f),
            },
            OpCode::Castclass => match self.code_u32(assembly_index, &mut rip) {
                Ok(token) => self.op_castclass(assembly_index, token, rip),
                Err(f) => Outcome::Fault(f),
            },
            OpCode::Ldfld => match self.code_u32(assembly_index, &mut rip) {
                Ok(token) => self.op_ldfld(token, rip),
                Err(f) => Outcome::Fault(f),
            },
            OpCode::Stfld => match self.code_u32(assembly_index, &mut rip) {
                Ok(token) => self.op_stfld(token, rip),
                Err(f) => Outcome::Fault(f),
            },
            OpCode::Unboxany => match self.code_u32(assembly_index, &mut rip) {
                Ok(token) => self.op_unbox_any(token, rip),
                Err(f) => Outcome::Fault(f),
            },
            OpCode::Ldsfld => match self.code_u32(assembly_index, &mut rip) {
                Ok(token) => self.op_static(0, assembly_index, token, rip),
                Err(f) => Outcome::Fault(f),
            },
            OpCode::Ldsflda => match self.code_u32(assembly_index, &mut rip) {
                Ok(token) => self.op_static(1, assembly_index, token, rip),
                Err(f) => Outcome::Fault(f),
            },
            OpCode::Stsfld => match self.code_u32(assembly_index, &mut rip) {
                Ok(token) => self.op_static(2, assembly_index, token, rip),
                Err(f) => Outcome::Fault(f),
            },
            _ => Outcome::Fault(Fault::Unsupported),
        }
    }
    /// Executes a load or a store of a parameter or a local variable.
    fn dispatch_slots(&mut self, op: OpCode, assembly_index: usize, after: usize) -> (outcome:
        Outcome)
        requires
            old(self).spec_frames().len() > 0,
            Interpreter::spec_group(op) == 2,
            old(self).spec_top().assembly_index == assembly_index,
            assembly_index < old(self).spec_assemblies().len(),
            after <= old(self).spec_top_code().len(),
        ensures
            final(self).spec_step_laws(old(self), outcome),
            final(self).spec_simple_laws(old(self), outcome, op, after as int),
            old(self).spec_refs_ok() ==> final(self).spec_refs_ok(),
    {
        let mut rip: usize = after;
        match op {
            OpCode::Ldarg0 => self.op_load_slot(false, 0, rip),
            OpCode::Ldarg1 => self.op_load_slot(false, 1, rip),
            OpCode::Ldarg2 => self.op_load_slot(false, 2, rip),
            OpCode::Ldarg3 => self.op_load_slot(false, 3, rip),
            OpCode::Ldloc0 => self.op_load_slot(true, 0, rip),
            OpCode::Ldloc1 => self.op_load_slot(true, 1, rip),
            OpCode::Ldloc2 => self.op_load_slot(true, 2, rip),
            OpCode::Ldloc3 => self.op_load_slot(true, 3, rip),
            OpCode::Stloc0 => self.op_store_slot(true, 0, rip),
            OpCode::Stloc1 => self.op_store_slot(true, 1, rip),
            OpCode::Stloc2 => self.op_store_slot(true, 2, rip),
            OpCode::Stloc3 => self.op_store_slot(true, 3, rip),
            OpCode::Ldargs => match self.code_u8(assembly_index, &mut rip) {
                Ok(index) => self.op_load_slot(false, index as usize, rip),
                Err(f) => Outcome::Fault(f),
            },
            OpCode::Ldargas => match self.code_u8(assembly_index, &mut rip) {
                Ok(index) => self.op_load_slot_address(false, index as usize, rip),
                Err(f) => Outcome::Fault(f),
            },
            OpCode::Stargs => match self.code_u8(assembly_index, &mut rip) {
                Ok(index) => self.op_store_slot(false, index as usize, rip),
                Err(f) => Outcome::Fault(f),
            },
            OpCode::Ldlocs => match self.code_u8(assembly_index, &mut rip) {
                Ok(index) => self.op_load_slot(true, index as usize, rip),
                Err(f) => Outcome::Fault(f),
            },
            OpCode::Ldlocas => match self.code_u8(assembly_index, &mut rip) {
                Ok(index) => self.op_load_slot_address(true, index as usize, rip),
                Err(f) => Outcome::Fault(f),
            },
            OpCode::Stlocs => match self.code_u8(assembly_index, &mut rip) {
                Ok(index) => self.op_store_slot(true, index as usize, rip),
                Err(f) => Outcome::Fault(f),
            },
            _ => Outcome::Fault(Fault::Unsupported),
        }
    }
    /// Executes a load of a constant, or an instruction that only moves the operand stack.
    fn dispatch_consts(&mut self, op: OpCode, assembly_index: usize, after: usize) -> (outcome:
        Outcome)
        requires
            old(self).spec_frames().len() > 0,
            Interpreter::spec_group(op) == 3,
            old(self).spec_top().assembly_index == assembly_index,
            assembly_index < old(self).spec_assemblies().len(),
            after <= old(self).spec_top_code().len(),
        ensures
            final(self).spec_step_laws(old(self), outcome),
            final(self).spec_simple_laws(old(self), outcome, op, after as int),
            old(self).spec_refs_ok() ==> final(self).spec_refs_ok(),
    {
        let mut rip: usize = after;
        match op {
            OpCode::Nop | OpCode::Break => {
                self.set_rip(rip);
                Outcome::Continue
            },
            OpCode::Ldnull => self.op_push(ILType::Ref(ILRefType::Null), rip),
            OpCode::Ldci4m1 => self.op_push(ILType::Val(ILValType::Int32(-1)), rip),
            OpCode::Ldci40 => self.op_push(ILType::Val(ILValType::Int32(0)), rip),
            OpCode::Ldci41 => self.op_push(ILType::Val(ILValType::Int32(1)), rip),
            OpCode::Ldci42 => self.op_push(ILType::Val(ILValType::Int32(2)), rip),
            OpCode::Ldci43 => self.op_push(ILType::Val(ILValType::Int32(3)), rip),
            OpCode::Ldci44 => self.op_push(ILType::Val(ILValType::Int32(4)), rip),
            OpCode::Ldci45 => self.op_push(ILType::Val(ILValType::Int32(5)), rip),
            OpCode::Ldci46 => self.op_push(ILType::Val(ILValType::Int32(6)), rip),
            OpCode::Ldci47 => self.op_push(ILType::Val(ILValType::Int32(7)), rip),
            OpCode::Ldci48 => self.op_push(ILType::Val(ILValType::Int32(8)), rip),
            OpCode::Ldci4s => match self.code_u8(assembly_index, &mut rip) {
                Ok(b) => self.op_push(ILType::Val(ILValType::Int32(Interpreter::as_i8(b))), rip),
                Err(f) => Outcome::Fault(f),
            },
            OpCode::Ldci4 => match self.code_u32(assembly_index, &mut rip) {
                Ok(v) => self.op_push(ILType::Val(ILValType::Int32(Interpreter::as_i32(v))), rip),
                Err(f) => Outcome::Fault(f),
            },
            OpCode::Ldci8 => match self.code_u64(assembly_index, &mut rip) {
                Ok(v) => self.op_push(ILType::Val(ILValType::Int64(Interpreter::as_i64(v))), rip),
                Err(f) => Outcome::Fault(f),
            },
            OpCode::Ldcr4 => match self.code_u32(assembly_index, &mut rip) {
                Ok(bits) => self.op_push(ILType::Val(ILValType::Single(bits)), rip),
                Err(f) => Outcome::Fault(f),
            },
            OpCode::Ldcr8 => match self.code_u64(assembly_index, &mut rip) {
                Ok(bits) => self.op_push(ILType::Val(ILValType::Double(bits)), rip),
                Err(f) => Outcome::Fault(f),
            },
            OpCode::Dup => self.op_dup(rip),
            OpCode::Pop => self.op_pop(rip),
            _ => Outcome::Fault(Fault::Unsupported),
        }
    }
    /// Executes a call, a return, a conditional branch or a two-byte instruction.
    fn dispatch_flow(&mut self, op: OpCode, assembly_index: usize, after: usize) -> (outcome:
        Outcome)
        requires
            old(self).spec_frames().len() > 0,
            Interpreter::spec_group(op) == 4,
            old(self).spec_top().assembly_index == assembly_index,
            assembly_index < old(self).spec_assemblies().len(),
            after <= old(self).spec_top_code().len(),
        ensures
            final(self).spec_step_laws(old(self), outcome),
            final(self).spec_flow_laws(old(self), outcome, op, after as int),
            old(self).spec_refs_ok() ==> final(self).spec_refs_ok(),
    {
        let mut rip: usize = after;
        match op {
            OpCode::Jmp => match self.code_u32(assembly_index, &mut rip) {
                Ok(token) => self.do_jmp(assembly_index, token),
                Err(f) => Outcome::Fault(f),
            },
            OpCode::Call | OpCode::Callvirt => match self.code_u32(assembly_index, &mut rip) {
                Ok(token) => self.do_call(assembly_index, token, Some(rip), Vec::new()),
                Err(f) => Outcome::Fault(f),
            },
            OpCode::Ret => self.do_ret(),
            OpCode::Brfalses => match self.code_u8(assembly_index, &mut rip) {
                Ok(b) => self.op_branch_if(true, Interpreter::as_i8(b), rip),
                Err(f) => Outcome::Fault(f),
            },
            OpCode::Brtrues => match self.code_u8(assembly_index, &mut rip) {
                Ok(b) => self.op_branch_if(false, Interpreter::as_i8(b), rip),
                Err(f) => Outcome::Fault(f),
            },
            OpCode::Brfalse => match self.code_u32(assembly_index, &mut rip) {
                Ok(v) => self.op_branch_if(true, Interpreter::as_i32(v), rip),
                Err(f) => Outcome::Fault(f),
            },
            OpCode::Brtrue => match self.code_u32(assembly_index, &mut rip) {
                Ok(v) => self.op_branch_if(false, Interpreter::as_i32(v), rip),
                Err(f) => Outcome::Fault(f),
            },
            OpCode::Next => match self.code_u8(assembly_index, &mut rip) {
                Ok(second) => match OpCode2::from_u8(second) {
                    Some(op2) => self.dispatch_extended(op2, assembly_index, rip),
                    None => Outcome::Fault(Fault::UnknownOpcode),
                },
                Err(f) => Outcome::Fault(f),
            },
            _ => Outcome::Fault(Fault::Unsupported),
        }
    }
    /// Executes an arithmetic instruction or one that works on the heaps.
    fn dispatch_objects(&mut self, op: OpCode, assembly_index: usize, after: usize) -> (outcome:
        Outcome)
        requires
            old(self).spec_frames().len() > 0,
            Interpreter::spec_group(op) == 5,
            old(self).spec_top().assembly_index == assembly_index,
            assembly_index < old(self).spec_assemblies().len(),
            after <= old(self).spec_top_code().len(),
        ensures
            final(self).spec_step_laws(old(self), outcome),
            final(self).spec_simple_laws(old(self), outcome, op, after as int),
            final(self).spec_heap_laws(old(self), outcome, op, after as int),
            old(self).spec_refs_ok() ==> final(self).spec_refs_ok(),
    {
        let mut rip: usize = after;
        match op {
            OpCode::Add => self.op_binary(0, rip),
            OpCode::Sub => self.op_binary(1, rip),
            OpCode::And => self.op_binary(2, rip),
            OpCode::Or => self.op_binary(3, rip),
            OpCode::Xor => self.op_binary(4, rip),
            OpCode::Ldstr => match self.code_u32(assembly_index, &mut rip) {
                Ok(token) => self.op_ldstr(assembly_index, token, rip),
                Err(f) => Outcome::Fault(f),
            },
            OpCode::Newobj => match self.code_u32(assembly_index, &mut rip) {
                Ok(token) => self.op_newobj(assembly_index, token, rip),
                Err(f) => Outcome::Fault(f),
            },
            OpCode::Box => match self.code_u32(assembly_index, &mut rip) {
                Ok(token) => self.op_box(token, rip),
                Err(f) => Outcome::Fault(f),
            },
            OpCode::Convu => self.op_conv_u(rip),
            _ => Outcome::Fault(Fault::Unsupported),
        }
    }
    /// Executes the instruction `op` of the executing call, whose operands start
    /// at `after` in the code of the assembly at `assembly_index`.
    fn dispatch(&mut self, op: OpCode, assembly_index: usize, after: usize) -> (outcome: Outcome)
        requires
            old(self).spec_frames().len() > 0,
            old(self).spec_top().assembly_index == assembly_index,
            assembly_index < old(self).spec_assemblies().len(),
            after <= old(self).spec_top_code().len(),
        ensures
            final(self).spec_step_laws(old(self), outcome),
            final(self).spec_op_laws(old(self), outcome, op, after as int),
            final(self).spec_simple_laws(old(self), outcome, op, after as int),
            final(self).spec_flow_laws(old(self), outcome, op, after as int),
            final(self).spec_heap_laws(old(self), outcome, op, after as int),
            old(self).spec_refs_ok() ==> final(self).spec_refs_ok(),
    {
        match op {
            OpCode::Brs
            | OpCode::Br
            | OpCode::Switch
            | OpCode::Castclass
            | OpCode::Ldfld
            | OpCode::Stfld
            | OpCode::Unboxany
            | OpCode::Ldsfld
            | OpCode::Ldsflda
            | OpCode::Stsfld => self.dispatch_lawful(op, assembly_index, after),
            OpCode::Ldarg0
            | OpCode::Ldarg1
            | OpCode::Ldarg2
            | OpCode::Ldarg3
            | OpCode::Ldloc0
            | OpCode::Ldloc1
            | OpCode::Ldloc2
            | OpCode::Ldloc3
            | OpCode::Stloc0
            | OpCode::Stloc1
            | OpCode::Stloc2
            | OpCode::Stloc3
            | OpCode::Ldargs
            | OpCode::Ldargas
            | OpCode::Stargs
            | OpCode::Ldlocs
            | OpCode::Ldlocas
            | OpCode::Stlocs => self.dispatch_slots(op, assembly_index, after),
            OpCode::Nop
            | OpCode::Break
            | OpCode::Ldnull
            | OpCode::Ldci4m1
            | OpCode::Ldci40
            | OpCode::Ldci41
            | OpCode::Ldci42
            | OpCode::Ldci43
            | OpCode::Ldci44
            | OpCode::Ldci45
            | OpCode::Ldci46
            | OpCode::Ldci47
            | OpCode::Ldci48
            | OpCode::Ldci4s
            | OpCode::Ldci4
            | OpCode::Ldci8
            | OpCode::Ldcr4
            | OpCode::Ldcr8
            | OpCode::Dup
            | OpCode::Pop => self.dispatch_consts(op, assembly_index, after),
            OpCode::Jmp
            | OpCode::Call
            | OpCode::Callvirt
            | OpCode::Ret
            | OpCode::Brfalses
            | OpCode::Brtrues
            | OpCode::Brfalse
            | OpCode::Brtrue
            | OpCode::Next => self.dispatch_flow(op, assembly_index, after),
            OpCode::Add
            | OpCode::Sub
            | OpCode::And
            | OpCode::Or
            | OpCode::Xor
            | OpCode::Ldstr
            | OpCode::Newobj
            | OpCode::Box
            | OpCode::Convu => self.dispatch_objects(op, assembly_index, after),
            _ => Outcome::Fault(Fault::Unsupported),
        }
    }

    /// Executes the two-byte instruction `op` of the executing call, whose
    /// operands start at `after`.
    fn dispatch_extended(&mut self, op: OpCode2, assembly_index: usize, after: usize) -> (outcome:
        Outcome)
        requires
            old(self).spec_frames().len() > 0,
            old(self).spec_top().assembly_index == assembly_index,
            assembly_index < old(self).spec_assemblies().len(),
            after <= old(self).spec_top_code().len(),
        ensures
            final(self).spec_step_laws(old(self), outcome),
            !(outcome is LoadAssembly),
            final(self).spec_extended_laws(old(self), outcome, op, after as int),
            old(self).spec_refs_ok() ==> final(self).spec_refs_ok(),
    {
        let mut rip: usize = after;
        match op {
            OpCode2::Ceq => self.op_compare(0, rip),
            OpCode2::Cgt => self.op_compare(1, rip),
            OpCode2::Clt => self.op_compare(2, rip),
            OpCode2::Ldarg => match self.code_u16(assembly_index, &mut rip) {
                Ok(index) => self.op_load_slot(false, index as usize, rip),
                Err(f) => Outcome::Fault(f),
            },
            OpCode2::Ldarga => match self.code_u16(assembly_index, &mut rip) {
                Ok(index) => self.op_load_slot_address(false, index as usize, rip),
                Err(f) => Outcome::Fault(f),
            },
            OpCode2::Starg => match self.code_u16(assembly_index, &mut rip) {
                Ok(index) => self.op_store_slot(false, index as usize, rip),
                Err(f) => Outcome::Fault(f),
            },
            OpCode2::Ldloc => match self.code_u16(assembly_index, &mut rip) {
                Ok(index) => self.op_load_slot(true, index as usize, rip),
                Err(f) => Outcome::Fault(f),
            },
            OpCode2::Ldloca => match self.code_u16(assembly_index, &mut rip) {
                Ok(index) => self.op_load_slot_address(true, index as usize, rip),
                Err(f) => Outcome::Fault(f),
            },
            OpCode2::Stloc => match self.code_u16(assembly_index, &mut rip) {
                Ok(index) => self.op_store_slot(true, index as usize, rip),
                Err(f) => Outcome::Fault(f),
            },
            OpCode2::Localloc => self.op_localloc(rip),
            _ => Outcome::Fault(Fault::Unsupported),
        }
    }

    /// What one step does, from the state `before` to the state `self`: what
    /// holds of every step, and what holds of a step that executes the
    /// instruction at which the executing call stands.
    #[verifier::opaque]
    pub open spec fn spec_stepped(&self, before: &Interpreter, outcome: Outcome) -> bool {
        &&& self.spec_step_laws(before, outcome)
        &&& before.spec_refs_ok() ==> self.spec_refs_ok()
        &&& before.spec_frames().len() == 0 ==> outcome is Finished && self.spec_same(before)
        &&& before.spec_frames().len() > 0 && before.spec_opcode().is_none() ==> outcome
            == Outcome::Fault(Fault::CodeOutOfBounds)
        &&& before.spec_opcode().is_some() ==> match OpCode::spec_from_code(
            before.spec_opcode().unwrap() as int,
        ) {
            Some(op) => self.spec_op_laws(
                before,
                outcome,
                op,
                before.spec_top().rip + 1,
            ) && self.spec_simple_laws(
                before,
                outcome,
                op,
                before.spec_top().rip + 1,
            ) && self.spec_flow_laws(
                before,
                outcome,
                op,
                before.spec_top().rip + 1,
            ) && self.spec_heap_laws(
                before,
                outcome,
                op,
                before.spec_top().rip + 1,
            ),
            None => outcome == Outcome::Fault(Fault::UnknownOpcode),
        }
    }

    /// `count` steps that all went on lead from the state `before` to the state
    /// `self`.
    pub open spec fn spec_went(&self, before: &Interpreter, count: nat) -> bool
        decreases count,
    {
        if count == 0 {
            *self == *before
        } else {
            exists|mid: Interpreter|
                mid.spec_went(before, (count - 1) as nat) && #[trigger] self.spec_stepped(
                    &mid,
                    Outcome::Continue,
                )
        }
    }

    /// One more step that went on makes one more step.
    proof fn lemma_went_on(&self, before: &Interpreter, mid: &Interpreter, count: nat)
        requires
            count > 0,
            mid.spec_went(before, (count - 1) as nat),
            self.spec_stepped(mid, Outcome::Continue),
        ensures
            self.spec_went(before, count),
    {
    }

    /// What holds of every step holds of a step.
    pub proof fn lemma_step_laws(&self, before: &Interpreter, outcome: Outcome)
        requires
            self.spec_stepped(before, outcome),
        ensures
            self.spec_step_laws(before, outcome),
            before.spec_refs_ok() ==> self.spec_refs_ok(),
    {
        reveal(Interpreter::spec_stepped);
    }

    /// However many steps went on, the heaps have only grown and no object has
    /// changed the type it was made of, every static field that was initialised
    /// still is, and the bound on the operand stack and the validity of the
    /// references, where they held before the first step, hold before the next.
    pub proof fn lemma_steps_keep(&self, before: &Interpreter, count: nat)
        requires
            self.spec_went(before, count),
        ensures
            self.spec_heap_grown(before),
            self.spec_statics_kept(before),
            before.spec_depth_ok() ==> self.spec_depth_ok(),
            before.spec_refs_ok() ==> self.spec_refs_ok(),
        decreases count,
    {
        if count > 0 {
            let mid = choose|mid: Interpreter|
                mid.spec_went(before, (count - 1) as nat) && #[trigger] self.spec_stepped(
                    &mid,
                    Outcome::Continue,
                );
            mid.lemma_steps_keep(before, (count - 1) as nat);
            self.lemma_step_laws(&mid, Outcome::Continue);
            assert(self.spec_heap_grown(before)) by {
                assert forall|i: int| 0 <= i < before.spec_objects().len() implies (
                #[trigger] self.spec_objects()[i]).spec_origin()
                    == before.spec_objects()[i].spec_origin() by {
                    assert(mid.spec_objects()[i].spec_origin()
                        == before.spec_objects()[i].spec_origin());
                }
                assert forall|i: int| 0 <= i < before.spec_strings().len() implies #[trigger]
                    self.spec_strings()[i] == before.spec_strings()[i] by {
                    assert(mid.spec_strings()[i] == before.spec_strings()[i]);
                }
            }
            assert(self.spec_statics_kept(before)) by {
                assert forall|assembly_index: int, token: u32| #[trigger]
                    before.spec_static_ready(assembly_index, token) implies self.spec_static_ready(
                    assembly_index,
                    token,
                ) by {
                    assert(mid.spec_static_ready(assembly_index, token));
                }
            }
        }
    }

    /// Running for at most `limit` steps leads from the state `before` to the
    /// state `self` with the outcome `outcome`: either `limit` steps all went on,
    /// and so does the outcome; or fewer steps went on and the next step gave the
    /// outcome, which is the first that does not go on.
    pub open spec fn spec_ran(&self, before: &Interpreter, outcome: Outcome, limit: nat) -> bool {
        if outcome is Continue {
            self.spec_went(before, limit)
        } else {
            exists|mid: Interpreter, count: nat|
                count < limit && (#[trigger] mid.spec_went(before, count)) && self.spec_stepped(
                    &mid,
                    outcome,
                )
        }
    }

    /// Executes one instruction of the executing call.
    ///
    /// A byte that is no opcode stops the program with `UnknownOpcode`, an opcode
    /// that is not carried out with `Unsupported`; neither is skipped.
    pub fn step(&mut self) -> (outcome: Outcome)
        ensures
            old(self).spec_refs_ok() ==> final(self).spec_refs_ok(),
            final(self).spec_stepped(old(self), outcome),
            final(self).spec_step_laws(old(self), outcome),
            old(self).spec_frames().len() == 0 ==> outcome is Finished && final(self).spec_same(
                old(self),
            ),
    {
        proof {
            reveal(Interpreter::spec_stepped);
        }
        let n: usize = self.frames.len();
        if n == 0 {
            return Outcome::Finished;
        }
        let assembly_index: usize = self.frames[n - 1].assembly_index;
        let mut rip: usize = self.frames[n - 1].rip;
        let byte: u8 = match self.code_u8(assembly_index, &mut rip) {
            Ok(b) => b,
            Err(f) => {
                return Outcome::Fault(f);
            },
        };
        match OpCode::from_u8(byte) {
            Some(op) => self.dispatch(op, assembly_index, rip),
            None => Outcome::Fault(Fault::UnknownOpcode),
        }
    }

    /// Calls the method with the lowest token of the assembly that was started,
    /// with no arguments.
    pub fn start(&mut self) -> (outcome: Outcome)
        ensures
            final(self).spec_step_laws(old(self), outcome),
            final(self).spec_call_effect(old(self), outcome, None, Seq::<ILType>::empty()),
            final(self).spec_call_target(old(self), outcome, 0, 0x0600_0001, 0),
            final(self).spec_objects() == old(self).spec_objects(),
            final(self).spec_strings() == old(self).spec_strings(),
            final(self).spec_statics() == old(self).spec_statics(),
            final(self).spec_assemblies() == old(self).spec_assemblies(),
            old(self).spec_refs_ok() ==> final(self).spec_refs_ok(),
    {
        self.do_call(0, 0x0600_0001, None, Vec::new())
    }

    /// Calls the method that `token` names, seen from the assembly at
    /// `assembly_index`, with the arguments that lie on the operand stack.
    pub fn il_call(&mut self, assembly_index: usize, token: u32) -> (outcome: Outcome)
        ensures
            final(self).spec_step_laws(old(self), outcome),
            final(self).spec_call_effect(old(self), outcome, None, Seq::<ILType>::empty()),
            final(self).spec_call_target(old(self), outcome, assembly_index, token, 0),
            final(self).spec_objects() == old(self).spec_objects(),
            final(self).spec_strings() == old(self).spec_strings(),
            final(self).spec_statics() == old(self).spec_statics(),
            final(self).spec_assemblies() == old(self).spec_assemblies(),
            old(self).spec_refs_ok() ==> final(self).spec_refs_ok(),
    {
        self.do_call(assembly_index, token, None, Vec::new())
    }

    /// Executes instructions until one asks something of the host, the program
    /// ends, or `max_steps` instructions were executed; the outcome is `Continue`
    /// in the last case. The result is that of the steps taken.
    pub fn run(&mut self, max_steps: u64) -> (outcome: Outcome)
        ensures
            final(self).spec_ran(old(self), outcome, max_steps as nat),
            final(self).spec_heap_grown(old(self)),
            old(self).spec_depth_ok() && !(outcome is Fault) ==> final(self).spec_depth_ok(),
            outcome is Finished ==> final(self).spec_frames().len() == 0,
            outcome is LoadAssembly ==> final(self).spec_assembly_index(
                outcome->LoadAssembly_0.name@,
            ).is_none(),
            max_steps == 0 ==> outcome is Continue && final(self).spec_same(old(self)),
            max_steps > 0 && old(self).spec_frames().len() == 0 ==> outcome is Finished
                && final(self).spec_same(old(self)),
            old(self).spec_refs_ok() ==> final(self).spec_refs_ok(),
    {
        let mut steps: u64 = 0;
        while steps < max_steps
            invariant
                self.spec_went(old(self), steps as nat),
                old(self).spec_refs_ok() ==> self.spec_refs_ok(),
                self.spec_heap_grown(old(self)),
                old(self).spec_depth_ok() ==> self.spec_depth_ok(),
                steps <= max_steps,
                steps == 0 ==> self.spec_same(old(self)),
                old(self).spec_frames().len() == 0 ==> steps == 0,
            decreases max_steps - steps,
        {
            let ghost before = *self;
            let outcome = self.step();
            proof {
                assert(self.spec_heap_grown(&before));
                assert(self.spec_heap_grown(old(self)));
                assert(before.spec_went(old(self), steps as nat));
            }
            match outcome {
                Outcome::Continue => {},
                other => {
                    return other;
                },
            }
            steps += 1;
            proof {
                assert(before.spec_went(old(self), (steps as nat - 1) as nat));
                self.lemma_went_on(old(self), &before, steps as nat);
            }
        }
        Outcome::Continue
    }
}

} // verus!
