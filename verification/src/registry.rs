//! The tool registry: the fixed set of tool capabilities the agent may
//! dispatch to, keyed by unique name, enumerable in registration order so it
//! can be advertised to the model each turn. Entries are created once at
//! startup and read-only thereafter.

use vstd::prelude::*;

use crate::errors::ErrorKind;
use crate::messages::{ParamBinding, ParamBindingView, ToolCallRequest, ToolCallRequestView};
use crate::text::str_eq;

verus! {

/// One field of a tool's parameter shape.
pub struct ParamField {
    /// The field's name, as the model must supply it.
    pub name: String,
    /// What the field means, advertised to the model.
    pub description: String,
}

/// The mathematical value of a [`ParamField`].
pub struct ParamFieldView {
    pub name: Seq<char>,
    pub description: Seq<char>,
}

impl View for ParamField {
    type V = ParamFieldView;

    open spec fn view(&self) -> ParamFieldView {
        ParamFieldView { name: self.name@, description: self.description@ }
    }
}

/// What the registry holds for one tool: its unique name, its description,
/// and the structural description of its expected parameter fields.
/// Immutable once registered.
pub struct ToolDescriptor {
    /// The unique name the tool is invoked by.
    pub name: String,
    /// What the tool does, advertised to the model.
    pub description: String,
    /// The parameter fields the tool expects.
    pub fields: Vec<ParamField>,
}

/// The mathematical value of a [`ToolDescriptor`].
pub struct ToolDescriptorView {
    pub name: Seq<char>,
    pub description: Seq<char>,
    pub fields: Seq<ParamFieldView>,
}

impl View for ToolDescriptor {
    type V = ToolDescriptorView;

    open spec fn view(&self) -> ToolDescriptorView {
        ToolDescriptorView {
            name: self.name@,
            description: self.description@,
            fields: self.fields@.map_values(|f: ParamField| f@),
        }
    }
}

/// Some descriptor in the sequence carries this name.
pub open spec fn names_contain(ds: Seq<ToolDescriptorView>, name: Seq<char>) -> bool {
    exists|i: int| 0 <= i < ds.len() && ds[i].name == name
}

/// No two descriptors in the sequence share a name.
pub open spec fn names_unique(ds: Seq<ToolDescriptorView>) -> bool {
    forall|i: int, j: int| 0 <= i < j < ds.len() ==> ds[i].name != ds[j].name
}

/// The position of the descriptor carrying this name; meaningful only when
/// some descriptor does.
pub open spec fn index_of_name(ds: Seq<ToolDescriptorView>, name: Seq<char>) -> int {
    choose|i: int| 0 <= i < ds.len() && ds[i].name == name
}

/// With unique names, any position whose descriptor carries the name is the
/// position [`index_of_name`] picks.
pub proof fn lemma_index_of_name(ds: Seq<ToolDescriptorView>, name: Seq<char>, i: int)
    requires
        names_unique(ds),
        0 <= i < ds.len(),
        ds[i].name == name,
    ensures
        index_of_name(ds, name) == i,
{
    let j = index_of_name(ds, name);
    assert(0 <= j < ds.len() && ds[j].name == name);
    if i < j {
        assert(ds[i].name != ds[j].name);
    } else if j < i {
        assert(ds[j].name != ds[i].name);
    }
}

/// Some binding in the sequence carries this field name.
pub open spec fn has_binding(params: Seq<ParamBindingView>, name: Seq<char>) -> bool {
    exists|j: int| 0 <= j < params.len() && params[j].name == name
}

/// Some field in the sequence carries this name.
pub open spec fn has_field(fields: Seq<ParamFieldView>, name: Seq<char>) -> bool {
    exists|x: int| 0 <= x < fields.len() && fields[x].name == name
}

/// A request's parameters structurally match a descriptor's expected fields:
/// every expected field is supplied and nothing unexpected is.
pub open spec fn params_match(fields: Seq<ParamFieldView>, req: ToolCallRequestView) -> bool {
    &&& forall|i: int|
        0 <= i < fields.len() ==> has_binding(req.parameters, #[trigger] fields[i].name)
    &&& forall|j: int|
        0 <= j < req.parameters.len() ==> has_field(fields, #[trigger] req.parameters[j].name)
}

/// The name-keyed set of registered tools.
pub struct ToolRegistry {
    descriptors: Vec<ToolDescriptor>,
}

impl View for ToolRegistry {
    type V = Seq<ToolDescriptorView>;

    closed spec fn view(&self) -> Seq<ToolDescriptorView> {
        self.descriptors@.map_values(|d: ToolDescriptor| d@)
    }
}

impl ToolRegistry {
    /// Registered names are unique.
    pub open spec fn wf(&self) -> bool {
        names_unique(self@)
    }

    /// An empty registry.
    pub fn new() -> (r: ToolRegistry)
        ensures
            r@ == Seq::<ToolDescriptorView>::empty(),
            r.wf(),
    {
        let r = ToolRegistry { descriptors: Vec::new() };
        proof {
            assert(r@ =~= Seq::<ToolDescriptorView>::empty());
        }
        r
    }

    /// Add a descriptor. Registering a name that is already taken fails with
    /// `DuplicateTool` and changes nothing; otherwise the descriptor is
    /// appended in registration order.
    pub fn register(&mut self, d: ToolDescriptor) -> (r: Result<(), ErrorKind>)
        requires
            old(self).wf(),
        ensures
            final(self).wf(),
            names_contain(old(self)@, d.name@) ==> (r == Err::<(), ErrorKind>(
                ErrorKind::DuplicateTool,
            ) && final(self)@ == old(self)@),
            !names_contain(old(self)@, d.name@) ==> (r == Ok::<(), ErrorKind>(()) && final(self)@
                == old(self)@.push(d@)),
    {
        let mut i: usize = 0;
        let n = self.descriptors.len();
        while i < n
            invariant
                0 <= i <= n,
                n == self@.len(),
                self@ == old(self)@,
                self.wf(),
                forall|k: int| 0 <= k < i ==> self@[k].name != d.name@,
            decreases n - i,
        {
            if str_eq(self.descriptors[i].name.as_str(), d.name.as_str()) {
                proof {
                    assert(self@[i as int] == self.descriptors@[i as int]@);
                    assert(names_contain(self@, d.name@));
                }
                return Err(ErrorKind::DuplicateTool);
            }
            i = i + 1;
        }
        let ghost prev = self@;
        let ghost dv = d@;
        self.descriptors.push(d);
        proof {
            assert(self@ =~= prev.push(dv));
        }
        Ok(())
    }

    /// Find the registered position of the tool with this name; `UnknownTool`
    /// when no descriptor carries it.
    pub fn lookup(&self, name: &str) -> (r: Result<usize, ErrorKind>)
        ensures
            r matches Ok(i) ==> i < self@.len() && self@[i as int].name == name@,
            r is Err <==> !names_contain(self@, name@),
            r matches Err(k) ==> k == ErrorKind::UnknownTool,
    {
        let mut i: usize = 0;
        let n = self.descriptors.len();
        while i < n
            invariant
                0 <= i <= n,
                n == self@.len(),
                forall|k: int| 0 <= k < i ==> self@[k].name != name@,
            decreases n - i,
        {
            if str_eq(self.descriptors[i].name.as_str(), name) {
                proof {
                    assert(self@[i as int] == self.descriptors@[i as int]@);
                    assert(names_contain(self@, name@));
                }
                return Ok(i);
            }
            i = i + 1;
        }
        Err(ErrorKind::UnknownTool)
    }

    /// All descriptors, in registration order, for advertising the registered
    /// capabilities to the model each turn.
    pub fn list(&self) -> (r: &Vec<ToolDescriptor>)
        ensures
            r@.map_values(|d: ToolDescriptor| d@) == self@,
    {
        &self.descriptors
    }

    /// How many tools are registered.
    pub fn len(&self) -> (r: usize)
        ensures
            r == self@.len(),
    {
        self.descriptors.len()
    }

    /// The descriptor at registered position `i`.
    pub fn get(&self, i: usize) -> (r: &ToolDescriptor)
        requires
            i < self@.len(),
        ensures
            r@ == self@[i as int],
    {
        &self.descriptors[i]
    }

    /// Whether a request's parameters structurally match the expected fields
    /// of the descriptor at position `i`.
    pub fn validate(&self, i: usize, req: &ToolCallRequest) -> (r: bool)
        requires
            i < self@.len(),
        ensures
            r == params_match(self@[i as int].fields, req@),
    {
        let fields = &self.descriptors[i].fields;
        proof {
            assert(self@[i as int] == self.descriptors@[i as int]@);
        }
        let mut a: usize = 0;
        let nf = fields.len();
        while a < nf
            invariant
                0 <= a <= nf,
                nf == fields@.len(),
                i < self@.len(),
                self@[i as int].fields == fields@.map_values(|f: ParamField| f@),
                req@.parameters == req.parameters@.map_values(|b: ParamBinding| b@),
                forall|x: int|
                    0 <= x < a ==> has_binding(
                        req@.parameters,
                        #[trigger] self@[i as int].fields[x].name,
                    ),
            decreases nf - a,
        {
            proof {
                assert(self@[i as int].fields[a as int] == fields@[a as int]@);
            }
            if !binding_named(&req.parameters, fields[a].name.as_str()) {
                proof {
                    assert(!has_binding(req@.parameters, self@[i as int].fields[a as int].name));
                    assert(self@[i as int].fields.len() == fields@.len());
                    assert(!params_match(self@[i as int].fields, req@));
                }
                return false;
            }
            a = a + 1;
        }
        let mut b: usize = 0;
        let np = req.parameters.len();
        while b < np
            invariant
                0 <= b <= np,
                np == req.parameters@.len(),
                nf == fields@.len(),
                i < self@.len(),
                self@[i as int].fields == fields@.map_values(|f: ParamField| f@),
                req@.parameters == req.parameters@.map_values(|b: ParamBinding| b@),
                forall|x: int|
                    0 <= x < nf ==> has_binding(
                        req@.parameters,
                        #[trigger] self@[i as int].fields[x].name,
                    ),
                forall|y: int|
                    0 <= y < b ==> has_field(
                        self@[i as int].fields,
                        #[trigger] req@.parameters[y].name,
                    ),
            decreases np - b,
        {
            proof {
                assert(req@.parameters[b as int] == req.parameters@[b as int]@);
            }
            if !field_named(fields, req.parameters[b].name.as_str()) {
                proof {
                    assert(!has_field(self@[i as int].fields, req@.parameters[b as int].name));
                    assert(!params_match(self@[i as int].fields, req@));
                }
                return false;
            }
            b = b + 1;
        }
        proof {
            assert(nf == self@[i as int].fields.len());
        }
        true
    }
}

/// Whether some binding in the list carries this field name.
fn binding_named(params: &Vec<ParamBinding>, name: &str) -> (r: bool)
    ensures
        r == has_binding(params@.map_values(|b: ParamBinding| b@), name@),
{
    let ghost pv = params@.map_values(|b: ParamBinding| b@);
    let mut j: usize = 0;
    let n = params.len();
    while j < n
        invariant
            0 <= j <= n,
            n == params@.len(),
            pv == params@.map_values(|b: ParamBinding| b@),
            forall|k: int| 0 <= k < j ==> #[trigger] pv[k].name != name@,
        decreases n - j,
    {
        proof {
            assert(pv[j as int] == params@[j as int]@);
        }
        if str_eq(params[j].name.as_str(), name) {
            proof {
                assert(has_binding(pv, name@));
            }
            return true;
        }
        j = j + 1;
    }
    false
}

/// Whether some field in the list carries this name.
fn field_named(fields: &Vec<ParamField>, name: &str) -> (r: bool)
    ensures
        r == has_field(fields@.map_values(|f: ParamField| f@), name@),
{
    let ghost fv = fields@.map_values(|f: ParamField| f@);
    let mut x: usize = 0;
    let n = fields.len();
    while x < n
        invariant
            0 <= x <= n,
            n == fields@.len(),
            fv == fields@.map_values(|f: ParamField| f@),
            forall|k: int| 0 <= k < x ==> #[trigger] fv[k].name != name@,
        decreases n - x,
    {
        proof {
            assert(fv[x as int] == fields@[x as int]@);
        }
        if str_eq(fields[x].name.as_str(), name) {
            proof {
                assert(has_field(fv, name@));
            }
            return true;
        }
        x = x + 1;
    }
    false
}

} // verus!
