//! Programs: shaders linked together, with the active attributes and uniforms
//! of the linked program looked up by name.
use vstd::prelude::*;
use vstd::string::StringExecFns;

use crate::gl_call::{detaches_from, program_deletions, GlCall};
use crate::shader::Shader;
use crate::utils::{ascii_chars, buffer_text, c_text, charbuf_to_str, is_ascii_bytes};

verus! {

/// A failed link, with the driver's log.
#[derive(Debug)]
pub struct ProgramError {
    pub msg: String,
}

impl ProgramError {
    pub fn new(msg: String) -> (r: ProgramError)
        ensures
            r.msg@ == msg@,
    {
        ProgramError { msg }
    }

    /// The error as a line of text.
    pub fn to_str(&self) -> (r: String)
        ensures
            r@ == "Program error: "@ + self.msg@,
    {
        let mut r = String::from_str("Program error: ");
        r.append(self.msg.as_str());
        r
    }
}

/// Location of a uniform or an attribute, with its type.
#[derive(Debug, Clone, Copy, PartialEq, Eq, Structural)]
pub struct Location {
    pub id: u32,
    pub ty: u32,
}

/// One active attribute or uniform as the driver reports it: the buffer it
/// wrote the zero-terminated name into, and the type.
#[derive(Debug)]
pub struct ActiveVar {
    pub name: Vec<u8>,
    pub ty: u32,
}

/// What the driver reports after a link call.
#[derive(Debug)]
pub struct LinkReport {
    /// The link status.
    pub linked: bool,
    /// The info log, read on failure.
    pub log: Vec<u8>,
    /// The active attributes, by index.
    pub attribs: Vec<ActiveVar>,
    /// The active uniforms, by index.
    pub uniforms: Vec<ActiveVar>,
}

/// The name table that inserting `entries` in order gives: a later entry
/// replaces an earlier one of the same name.
pub open spec fn table_of(entries: Seq<(Seq<char>, Location)>) -> Map<Seq<char>, Location>
    decreases entries.len(),
{
    if entries.len() == 0 {
        Map::empty()
    } else {
        table_of(entries.drop_last()).insert(entries.last().0, entries.last().1)
    }
}

/// What a name table holds for `name`.
pub open spec fn lookup(table: Map<Seq<char>, Location>, name: Seq<char>) -> Option<Location> {
    if table.contains_key(name) {
        Some(table[name])
    } else {
        None
    }
}

/// The entries of a stored table, over the names' characters.
pub open spec fn entries_view(entries: Seq<(String, Location)>) -> Seq<(Seq<char>, Location)> {
    entries.map_values(|e: (String, Location)| (e.0@, e.1))
}

/// The entries that the driver's list of active variables gives: the one at
/// index `i` is found at location `i`.
pub open spec fn introspected(vars: Seq<ActiveVar>) -> Seq<(Seq<char>, Location)> {
    Seq::new(vars.len(), |i: int| (buffer_text(vars[i].name@), Location { id: i as u32, ty: vars[i].ty }))
}

/// Deleting each of `shaders`.
pub open spec fn shader_deletes(shaders: Seq<u32>) -> Seq<GlCall> {
    shaders.map_values(|s: u32| GlCall::DeleteShader { shader: s })
}

/// Detaching each of `shaders` from `program`.
pub open spec fn detach_all(program: u32, shaders: Seq<u32>) -> Seq<GlCall> {
    shaders.map_values(|s: u32| GlCall::DetachShader { program, shader: s })
}

/// Releasing a program object that never became a `Program`, and its shaders:
/// nothing is detached.
pub open spec fn unlinked_release(program: u32, shaders: Seq<u32>) -> Seq<GlCall> {
    seq![GlCall::DeleteProgram { program }] + shader_deletes(shaders)
}

/// Releasing a linked program: its shaders are detached, the program deleted,
/// then the shaders deleted.
pub open spec fn linked_release(program: u32, shaders: Seq<u32>) -> Seq<GlCall> {
    detach_all(program, shaders) + seq![GlCall::DeleteProgram { program }] + shader_deletes(shaders)
}

proof fn lemma_table_at(entries: Seq<(Seq<char>, Location)>, i: int, name: Seq<char>)
    requires
        0 <= i < entries.len(),
        entries[i].0 == name,
        forall|j: int| i < j < entries.len() ==> (#[trigger] entries[j]).0 != name,
    ensures
        lookup(table_of(entries), name) == Some(entries[i].1),
    decreases entries.len(),
{
    if i < entries.len() - 1 {
        let rest = entries.drop_last();
        assert forall|j: int| i < j < rest.len() implies (#[trigger] rest[j]).0 != name by {
            assert(rest[j] == entries[j]);
        }
        lemma_table_at(rest, i, name);
        assert(entries.last() == entries[entries.len() - 1]);
    }
}

proof fn lemma_table_absent(entries: Seq<(Seq<char>, Location)>, name: Seq<char>)
    requires
        forall|j: int| 0 <= j < entries.len() ==> (#[trigger] entries[j]).0 != name,
    ensures
        lookup(table_of(entries), name) is None,
    decreases entries.len(),
{
    if entries.len() > 0 {
        let rest = entries.drop_last();
        assert forall|j: int| 0 <= j < rest.len() implies (#[trigger] rest[j]).0 != name by {
            assert(rest[j] == entries[j]);
        }
        lemma_table_absent(rest, name);
        assert(entries.last() == entries[entries.len() - 1]);
    }
}

proof fn lemma_deletions_concat(a: Seq<GlCall>, b: Seq<GlCall>, program: u32)
    ensures
        program_deletions(a + b, program) == program_deletions(a, program) + program_deletions(
            b,
            program,
        ),
    decreases b.len(),
{
    if b.len() > 0 {
        lemma_deletions_concat(a, b.drop_last(), program);
        assert((a + b).drop_last() =~= a + b.drop_last());
    }
}

proof fn lemma_no_program_call(calls: Seq<GlCall>, program: u32)
    requires
        forall|i: int| 0 <= i < calls.len() ==> !(#[trigger] calls[i] is DeleteProgram),
    ensures
        program_deletions(calls, program) == 0,
    decreases calls.len(),
{
    if calls.len() > 0 {
        let rest = calls.drop_last();
        assert forall|i: int| 0 <= i < rest.len() implies !(#[trigger] rest[i] is DeleteProgram) by {
            assert(rest[i] == calls[i]);
        }
        lemma_no_program_call(rest, program);
        assert(!(calls[calls.len() - 1] is DeleteProgram));
    }
}

/// Releasing a program object that never became a `Program`, after a failed
/// link or without a link, deletes that object exactly once and detaches no
/// shader from it.
pub proof fn lemma_unlinked_release_once(program: u32, shaders: Seq<u32>)
    ensures
        program_deletions(unlinked_release(program, shaders), program) == 1,
        !detaches_from(unlinked_release(program, shaders), program),
{
    let head = seq![GlCall::DeleteProgram { program }];
    let tail = shader_deletes(shaders);
    lemma_deletions_concat(head, tail, program);
    lemma_no_program_call(tail, program);
    assert(head.drop_last() =~= Seq::<GlCall>::empty());
    assert(program_deletions(head.drop_last(), program) == 0);
    assert(head.last() == (GlCall::DeleteProgram { program }));
    assert(program_deletions(head, program) == 1);
    let calls = unlinked_release(program, shaders);
    assert forall|i: int| 0 <= i < calls.len() implies !(#[trigger] calls[i] is DetachShader) by {
        if i > 0 {
            assert(calls[i] == tail[i - 1]);
        }
    }
}

/// Releasing a linked program deletes its program object exactly once, and
/// detaches from it each shader it owns.
pub proof fn lemma_linked_release_once(program: u32, shaders: Seq<u32>)
    ensures
        program_deletions(linked_release(program, shaders), program) == 1,
        forall|k: int|
            0 <= k < shaders.len() ==> linked_release(program, shaders).contains(
                GlCall::DetachShader { program, shader: #[trigger] shaders[k] },
            ),
{
    let detaches = detach_all(program, shaders);
    let head = seq![GlCall::DeleteProgram { program }];
    let tail = shader_deletes(shaders);
    lemma_no_program_call(detaches, program);
    lemma_no_program_call(tail, program);
    lemma_deletions_concat(detaches, head, program);
    lemma_deletions_concat(detaches + head, tail, program);
    assert(head.drop_last() =~= Seq::<GlCall>::empty());
    assert(program_deletions(head.drop_last(), program) == 0);
    assert(head.last() == (GlCall::DeleteProgram { program }));
    assert(program_deletions(head, program) == 1);
    let calls = linked_release(program, shaders);
    assert forall|k: int| 0 <= k < shaders.len() implies calls.contains(
        GlCall::DetachShader { program, shader: #[trigger] shaders[k] },
    ) by {
        assert(calls[k] == detaches[k]);
    }
}

proof fn lemma_table_domain(entries: Seq<(Seq<char>, Location)>, name: Seq<char>)
    ensures
        table_of(entries).contains_key(name) <==> exists|i: int|
            0 <= i < entries.len() && (#[trigger] entries[i]).0 == name,
    decreases entries.len(),
{
    if entries.len() > 0 {
        let rest = entries.drop_last();
        lemma_table_domain(rest, name);
        if table_of(entries).contains_key(name) {
            if entries.last().0 != name {
                let i = choose|i: int| 0 <= i < rest.len() && (#[trigger] rest[i]).0 == name;
                assert(entries[i] == rest[i]);
            } else {
                assert(entries[entries.len() - 1].0 == name);
            }
        }
        if exists|i: int| 0 <= i < entries.len() && (#[trigger] entries[i]).0 == name {
            let i = choose|i: int| 0 <= i < entries.len() && (#[trigger] entries[i]).0 == name;
            if i < entries.len() - 1 {
                assert(rest[i] == entries[i]);
            }
        }
    }
}

/// A linked program's table holds exactly the names of the active variables
/// that the driver reported, and each name the driver reported at one index
/// only is found at that index.
pub proof fn lemma_introspected_names(vars: Seq<ActiveVar>, name: Seq<char>)
    ensures
        table_of(introspected(vars)).contains_key(name) <==> exists|i: int|
            0 <= i < vars.len() && buffer_text((#[trigger] vars[i]).name@) == name,
        forall|i: int|
            0 <= i < vars.len() && buffer_text(vars[i].name@) == name && (forall|j: int|
                0 <= j < vars.len() && j != i ==> buffer_text((#[trigger] vars[j]).name@) != name)
                ==> lookup(table_of(introspected(vars)), name) == Some(
                Location { id: i as u32, ty: vars[i].ty },
            ),
{
    let entries = introspected(vars);
    lemma_table_domain(entries, name);
    if exists|i: int| 0 <= i < vars.len() && buffer_text((#[trigger] vars[i]).name@) == name {
        let i = choose|i: int| 0 <= i < vars.len() && buffer_text((#[trigger] vars[i]).name@) == name;
        assert(entries[i].0 == name);
    }
    if table_of(entries).contains_key(name) {
        let i = choose|i: int| 0 <= i < entries.len() && (#[trigger] entries[i]).0 == name;
        assert(buffer_text(vars[i].name@) == name);
    }
    assert forall|i: int|
        0 <= i < vars.len() && buffer_text(vars[i].name@) == name && (forall|j: int|
            0 <= j < vars.len() && j != i ==> buffer_text((#[trigger] vars[j]).name@) != name)
            implies lookup(table_of(entries), name) == Some(
        Location { id: i as u32, ty: vars[i].ty },
    ) by {
        assert forall|j: int| i < j < entries.len() implies (#[trigger] entries[j]).0 != name by {
            assert(entries[j].0 == buffer_text(vars[j].name@));
        }
        lemma_table_at(entries, i, name);
    }
}

/// Looks `name` up in a stored table.
fn find_entry<'a>(entries: &'a Vec<(String, Location)>, name: &str) -> (r: Option<&'a Location>)
    ensures
        match r {
            Some(l) => lookup(table_of(entries_view(entries@)), name@) == Some(*l),
            None => lookup(table_of(entries_view(entries@)), name@) is None,
        },
{
    let key = name.to_owned();
    let ghost view = entries_view(entries@);
    let mut i: usize = entries.len();
    while i > 0
        invariant
            i <= entries@.len(),
            view == entries_view(entries@),
            key@ == name@,
            forall|j: int| i <= j < view.len() ==> (#[trigger] view[j]).0 != name@,
        decreases i,
    {
        if entries[i - 1].0 == key {
            proof {
                lemma_table_at(view, i - 1, name@);
            }
            return Some(&entries[i - 1].1);
        }
        i = i - 1;
    }
    proof {
        lemma_table_absent(view, name@);
    }
    None
}

/// The stored table for a list of active variables.
fn introspect(vars: &Vec<ActiveVar>) -> (r: Vec<(String, Location)>)
    requires
        vars@.len() <= i32::MAX,
    ensures
        entries_view(r@) == introspected(vars@),
{
    let mut r: Vec<(String, Location)> = Vec::new();
    let mut i: usize = 0;
    while i < vars.len()
        invariant
            i <= vars@.len() <= i32::MAX,
            entries_view(r@) =~= introspected(vars@).subrange(0, i as int),
        decreases vars@.len() - i,
    {
        let name = charbuf_to_str(vars[i].name.as_slice());
        let loc = Location { id: i as u32, ty: vars[i].ty };
        assert(name@ == buffer_text(vars@[i as int].name@));
        assert(loc == introspected(vars@)[i as int].1);
        let ghost prev = r@;
        let ghost entry = (name@, loc);
        assert(introspected(vars@)[i as int] == entry);
        r.push((name, loc));
        assert(entries_view(r@) =~= entries_view(prev).push(entry));
        i = i + 1;
        assert(entries_view(r@) =~= introspected(vars@).subrange(0, i as int));
    }
    assert(introspected(vars@).subrange(0, i as int) =~= introspected(vars@));
    r
}

/// Appends the deletion of each of `shaders` to `calls`.
fn push_shader_deletes(calls: &mut Vec<GlCall>, shaders: &Vec<Shader>)
    ensures
        final(calls)@ == old(calls)@ + shader_deletes(shader_ids(shaders@)),
{
    let ghost start = calls@;
    let mut i: usize = 0;
    while i < shaders.len()
        invariant
            i <= shaders@.len(),
            calls@ =~= start + shader_deletes(shader_ids(shaders@)).subrange(0, i as int),
        decreases shaders@.len() - i,
    {
        calls.push(GlCall::DeleteShader { shader: shaders[i].id });
        i = i + 1;
        assert(calls@ =~= start + shader_deletes(shader_ids(shaders@)).subrange(0, i as int));
    }
    assert(shader_deletes(shader_ids(shaders@)).subrange(0, i as int) =~= shader_deletes(
        shader_ids(shaders@),
    ));
}

/// Appends detaching each of `shaders` from `program` to `calls`.
fn push_detaches(calls: &mut Vec<GlCall>, program: u32, shaders: &Vec<Shader>)
    ensures
        final(calls)@ == old(calls)@ + detach_all(program, shader_ids(shaders@)),
{
    let ghost start = calls@;
    let mut i: usize = 0;
    while i < shaders.len()
        invariant
            i <= shaders@.len(),
            calls@ =~= start + detach_all(program, shader_ids(shaders@)).subrange(0, i as int),
        decreases shaders@.len() - i,
    {
        calls.push(GlCall::DetachShader { program, shader: shaders[i].id });
        i = i + 1;
        assert(calls@ =~= start + detach_all(program, shader_ids(shaders@)).subrange(0, i as int));
    }
    assert(detach_all(program, shader_ids(shaders@)).subrange(0, i as int) =~= detach_all(
        program,
        shader_ids(shaders@),
    ));
}

/// The object ids of a list of shaders.
pub open spec fn shader_ids(shaders: Seq<Shader>) -> Seq<u32> {
    shaders.map_values(|s: Shader| s.id)
}

/// A successfully linked program object, with the shaders it owns and its
/// attribute and uniform tables. No other state of a program is observable.
pub struct Program {
    id: u32,
    shaders: Vec<Shader>,
    attribs: Vec<(String, Location)>,
    uniforms: Vec<(String, Location)>,
}

impl Program {
    /// The program object's id.
    pub closed spec fn handle(&self) -> u32 {
        self.id
    }

    /// The program object's id.
    pub fn id(&self) -> (r: u32)
        ensures
            r == self.handle(),
    {
        self.id
    }

    /// The ids of the shaders the program owns, in the order they were attached.
    pub closed spec fn shader_ids(&self) -> Seq<u32> {
        shader_ids(self.shaders@)
    }

    /// The attribute table.
    pub closed spec fn attrib_table(&self) -> Map<Seq<char>, Location> {
        table_of(entries_view(self.attribs@))
    }

    /// The uniform table.
    pub closed spec fn uniform_table(&self) -> Map<Seq<char>, Location> {
        table_of(entries_view(self.uniforms@))
    }

    /// Finishes the linker's program object, given what the driver reported
    /// after the link call.
    ///
    /// On success the program owns the linker's object and shaders, and its
    /// tables hold the reported attributes and uniforms. On failure the
    /// error carries the log's text, and the program object and the shaders are
    /// released without detaching anything.
    pub fn new(linker: Linker, report: &LinkReport) -> (r: (Result<Program, ProgramError>, Vec<GlCall>))
        requires
            report.attribs@.len() <= i32::MAX,
            report.uniforms@.len() <= i32::MAX,
        ensures
            report.linked ==> r.0 is Ok && r.1@.len() == 0,
            report.linked ==> r.0->Ok_0.handle() == linker.handle() && r.0->Ok_0.shader_ids() == linker.shader_ids()
                && r.0->Ok_0.attrib_table() == table_of(introspected(report.attribs@))
                && r.0->Ok_0.uniform_table() == table_of(introspected(report.uniforms@)),
            !report.linked ==> r.0 is Err && r.0->Err_0.msg@ == buffer_text(report.log@) && r.1@
                == unlinked_release(linker.handle(), linker.shader_ids()),
            !report.linked && is_ascii_bytes(c_text(report.log@)) ==> r.0->Err_0.msg@ == ascii_chars(
                c_text(report.log@),
            ),
    {
        let Linker { id, shaders } = linker;
        if !report.linked {
            let msg = charbuf_to_str(report.log.as_slice());
            let mut calls = vec![GlCall::DeleteProgram { program: id }];
            push_shader_deletes(&mut calls, &shaders);
            assert(calls@ =~= unlinked_release(id, shader_ids(shaders@)));
            return (Err(ProgramError::new(msg)), calls);
        }
        let attribs = introspect(&report.attribs);
        let uniforms = introspect(&report.uniforms);
        (Ok(Program { id, shaders, attribs, uniforms }), Vec::new())
    }

    /// Makes the program the current one.
    pub fn bind(&self) -> (r: Vec<GlCall>)
        ensures
            r@ == seq![GlCall::UseProgram { program: self.handle() }],
    {
        vec![GlCall::UseProgram { program: self.id }]
    }

    /// Makes no program the current one.
    pub fn unbind() -> (r: Vec<GlCall>)
        ensures
            r@ == seq![GlCall::UseProgram { program: 0 }],
    {
        vec![GlCall::UseProgram { program: 0 }]
    }

    /// The location of the attribute `name`, if the program has one.
    pub fn get_attrib(&self, name: &str) -> (r: Option<&Location>)
        ensures
            match r {
                Some(l) => lookup(self.attrib_table(), name@) == Some(*l),
                None => lookup(self.attrib_table(), name@) is None,
            },
    {
        find_entry(&self.attribs, name)
    }

    /// The location of the uniform `name`, if the program has one.
    pub fn get_uniform(&self, name: &str) -> (r: Option<&Location>)
        ensures
            match r {
                Some(l) => lookup(self.uniform_table(), name@) == Some(*l),
                None => lookup(self.uniform_table(), name@) is None,
            },
    {
        find_entry(&self.uniforms, name)
    }

    /// Binds the fragment output `name` to color number `location`.
    pub fn bind_frag_data_location(&self, name: &str, location: u32) -> (r: Vec<GlCall>)
        ensures
            r@.len() == 1,
            r@[0] is BindFragDataLocation,
            r@[0]->BindFragDataLocation_program == self.handle(),
            r@[0]->BindFragDataLocation_color == location,
            r@[0]->BindFragDataLocation_name@ == name@,
    {
        let name = name.to_owned();
        vec![GlCall::BindFragDataLocation { program: self.id, color: location, name }]
    }

    /// Enables the attribute `name` and points it at tightly packed vertex data
    /// of `size` components of type `ty`, read from the start of the bound
    /// buffer. `None` where the program has no such attribute.
    pub fn enable_vertex_array(&self, name: &str, size: i32, ty: u32) -> (r: Option<Vec<GlCall>>)
        ensures
            lookup(self.attrib_table(), name@) is None <==> r is None,
            lookup(self.attrib_table(), name@) is Some ==> r->Some_0@ == seq![
                GlCall::EnableVertexAttribArray {
                    index: self.attrib_table()[name@].id,
                },
                GlCall::VertexAttribPointer { index: self.attrib_table()[name@].id, size, ty },
            ],
    {
        match self.get_attrib(name) {
            None => None,
            Some(loc) => Some(
                vec![
                    GlCall::EnableVertexAttribArray { index: loc.id },
                    GlCall::VertexAttribPointer { index: loc.id, size, ty },
                ],
            ),
        }
    }

    /// Releases the program: detaches its shaders, deletes the program object,
    /// then deletes the shaders.
    pub fn release(self) -> (r: Vec<GlCall>)
        ensures
            r@ == linked_release(self.handle(), self.shader_ids()),
    {
        let mut calls: Vec<GlCall> = Vec::new();
        push_detaches(&mut calls, self.id, &self.shaders);
        calls.push(GlCall::DeleteProgram { program: self.id });
        push_shader_deletes(&mut calls, &self.shaders);
        calls
    }
}

/// A program object being configured: shaders are attached to it before it is
/// linked into a `Program`.
pub struct Linker {
    id: u32,
    shaders: Vec<Shader>,
}

impl Linker {
    /// The program object's id.
    pub closed spec fn handle(&self) -> u32 {
        self.id
    }

    /// The program object's id.
    pub fn id(&self) -> (r: u32)
        ensures
            r == self.handle(),
    {
        self.id
    }

    /// The ids of the attached shaders, in the order they were attached.
    pub closed spec fn shader_ids(&self) -> Seq<u32> {
        shader_ids(self.shaders@)
    }

    /// Starts configuring the newly created program object `id`.
    pub fn new(id: u32) -> (r: Linker)
        ensures
            r.handle() == id,
            r.shader_ids() == Seq::<u32>::empty(),
    {
        let r = Linker { id, shaders: Vec::new() };
        assert(r.shader_ids() =~= Seq::<u32>::empty());
        r
    }

    /// Attaches a shader to the program; the linker owns it from now on.
    pub fn attach(&mut self, shader: Shader) -> (r: Vec<GlCall>)
        ensures
            final(self).handle() == old(self).handle(),
            final(self).shader_ids() == old(self).shader_ids().push(shader.id),
            r@ == seq![GlCall::AttachShader { program: old(self).handle(), shader: shader.id }],
    {
        let sid = shader.id;
        self.shaders.push(shader);
        assert(self.shader_ids() =~= old(self).shader_ids().push(sid));
        vec![GlCall::AttachShader { program: self.id, shader: sid }]
    }

    /// Gives up a configuration that was never linked: the program object is
    /// deleted without detaching anything, then its shaders are deleted.
    pub fn release(self) -> (r: Vec<GlCall>)
        ensures
            r@ == unlinked_release(self.handle(), self.shader_ids()),
    {
        let mut calls = vec![GlCall::DeleteProgram { program: self.id }];
        push_shader_deletes(&mut calls, &self.shaders);
        assert(calls@ =~= unlinked_release(self.id, self.shader_ids()));
        calls
    }
}

} // verus!
