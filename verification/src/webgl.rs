//! The renderer, material and geometry triad.
//!
//! A material records, per attribute name, the location the graphics API
//! assigned and the component count; a geometry records its vertex buffer
//! names and how many indices it draws. A draw call walks the geometry's
//! buffers and binds each one whose name the material knows. The functions
//! here compute those tables and plans, and the error string each failing
//! graphics call surfaces; the embedding shell executes the plans.

use vstd::prelude::*;

verus! {

/// A vertex attribute as the material records it: the location the graphics
/// API assigned to its name, and the number of components per vertex.
#[derive(Clone, Copy, Debug, PartialEq, Eq, Structural)]
pub struct Attribute {
    pub location: u32,
    pub size: i32,
}

/// One step of a draw plan: bind the geometry's vertex buffer at
/// `buffer_index` to the attribute at `location`, reading `size` components
/// per vertex.
#[derive(Clone, Copy, Debug, PartialEq, Eq, Structural)]
pub struct VertexBinding {
    pub buffer_index: usize,
    pub location: u32,
    pub size: i32,
}

/// A shader program's interface: each attribute name with its location and
/// component count.
pub struct Material {
    attributes: Vec<(String, Attribute)>,
}

/// A mesh: the names of its vertex buffers, and how many indices its index
/// buffer holds.
pub struct Geometry {
    vertex_buffer_names: Vec<String>,
    index_length: i32,
}

/// The renderer: plans the bindings of each frame's single draw call.
pub struct Renderer {
}

/// The attribute recorded under `name`: the first pair of `attrs` whose name
/// matches, if any.
pub open spec fn lookup(attrs: Seq<(Seq<char>, Attribute)>, name: Seq<char>) -> Option<Attribute>
    decreases attrs.len(),
{
    if attrs.len() == 0 {
        None
    } else if attrs[0].0 == name {
        Some(attrs[0].1)
    } else {
        lookup(attrs.drop_first(), name)
    }
}

/// The draw plan for buffers `names` against the table `attrs`: one binding,
/// in buffer order, for each buffer whose name the table knows, carrying that
/// buffer's index and the attribute's location and size.
pub open spec fn plan_spec(names: Seq<Seq<char>>, attrs: Seq<(Seq<char>, Attribute)>) -> Seq<
    VertexBinding,
>
    decreases names.len(),
{
    if names.len() == 0 {
        Seq::empty()
    } else {
        let rest = plan_spec(names.drop_last(), attrs);
        match lookup(attrs, names.last()) {
            Some(a) => rest.push(
                VertexBinding {
                    buffer_index: (names.len() - 1) as usize,
                    location: a.location,
                    size: a.size,
                },
            ),
            None => rest,
        }
    }
}

impl Material {
    /// The attribute table as a sequence of name/attribute pairs.
    pub closed spec fn attrs(&self) -> Seq<(Seq<char>, Attribute)> {
        self.attributes@.map(|i: int, p: (String, Attribute)| (p.0@, p.1))
    }

    /// Builds the attribute table: the i-th name of `attribute_sizes` is
    /// paired with the i-th queried location and its component count.
    pub fn new(attribute_sizes: &Vec<(String, u8)>, locations: &Vec<u32>) -> (m: Material)
        requires
            attribute_sizes@.len() == locations@.len(),
        ensures
            m.attrs().len() == attribute_sizes@.len(),
            forall|i: int|
                0 <= i < attribute_sizes@.len() ==> (#[trigger] m.attrs()[i]).0
                    == attribute_sizes@[i].0@ && m.attrs()[i].1.location == locations@[i]
                    && m.attrs()[i].1.size == attribute_sizes@[i].1 as i32,
    {
        let mut attributes: Vec<(String, Attribute)> = Vec::new();
        let mut i: usize = 0;
        while i < attribute_sizes.len()
            invariant
                attribute_sizes@.len() == locations@.len(),
                i <= attribute_sizes@.len(),
                attributes@.len() == i,
                forall|j: int|
                    0 <= j < i ==> (#[trigger] attributes@[j]).0@ == attribute_sizes@[j].0@
                        && attributes@[j].1.location == locations@[j] && attributes@[j].1.size
                        == attribute_sizes@[j].1 as i32,
            decreases attribute_sizes@.len() - i,
        {
            let name = attribute_sizes[i].0.clone();
            let size = attribute_sizes[i].1;
            let location = locations[i];
            attributes.push((name, Attribute { location, size: size as i32 }));
            i += 1;
        }
        Material { attributes }
    }

    /// The attribute recorded under `name`, if any.
    pub fn attribute_for(&self, name: &String) -> (r: Option<Attribute>)
        ensures
            r == lookup(self.attrs(), name@),
    {
        proof {
            assert(self.attrs().skip(0) =~= self.attrs());
        }
        let mut j: usize = 0;
        while j < self.attributes.len()
            invariant
                j <= self.attributes@.len(),
                lookup(self.attrs(), name@) == lookup(self.attrs().skip(j as int), name@),
            decreases self.attributes@.len() - j,
        {
            proof {
                assert(self.attrs().skip(j as int)[0] == self.attrs()[j as int]);
                assert(self.attrs().skip(j as int).drop_first() =~= self.attrs().skip(j as int + 1));
            }
            if self.attributes[j].0 == *name {
                return Some(self.attributes[j].1);
            }
            j += 1;
        }
        proof {
            assert(self.attrs().skip(j as int) =~= Seq::empty());
        }
        None
    }

    /// Outcome of the shader-compilation step. `created` says whether the
    /// graphics API handed back a shader object, `status` what its compile
    /// status query reported as a boolean, `info_log` its info log, if any.
    /// Compilation succeeds exactly when the object was created and the
    /// status reported true; otherwise the error is the creation failure
    /// message, the info log, or a fallback when the API gave no log.
    pub fn compile_shader(created: bool, status: Option<bool>, info_log: Option<String>) -> (r:
        Result<(), String>)
        ensures
            r is Ok <==> (created && status == Some(true)),
            !created ==> r is Err && r->Err_0@ == "Unable to create shader object"@,
            created && status != Some(true) ==> r is Err && (match info_log {
                Some(log) => r->Err_0@ == log@,
                None => r->Err_0@ == "Unknown error creating shader"@,
            }),
    {
        if !created {
            Err("Unable to create shader object".to_owned())
        } else {
            match status {
                Some(true) => Ok(()),
                _ => match info_log {
                    Some(log) => Err(log),
                    None => Err("Unknown error creating shader".to_owned()),
                },
            }
        }
    }

    /// Outcome of the program-linking step, in the same shape as
    /// `compile_shader`: `created` says whether the graphics API handed back
    /// a program object, `status` what its link status query reported,
    /// `info_log` its info log, if any.
    pub fn link_program(created: bool, status: Option<bool>, info_log: Option<String>) -> (r: Result<
        (),
        String,
    >)
        ensures
            r is Ok <==> (created && status == Some(true)),
            !created ==> r is Err && r->Err_0@ == "Unable to create shader object"@,
            created && status != Some(true) ==> r is Err && (match info_log {
                Some(log) => r->Err_0@ == log@,
                None => r->Err_0@ == "Unknown error creating program object"@,
            }),
    {
        if !created {
            Err("Unable to create shader object".to_owned())
        } else {
            match status {
                Some(true) => Ok(()),
                _ => match info_log {
                    Some(log) => Err(log),
                    None => Err("Unknown error creating program object".to_owned()),
                },
            }
        }
    }
}

impl Geometry {
    /// The vertex buffer names, in buffer order.
    pub closed spec fn names(&self) -> Seq<Seq<char>> {
        self.vertex_buffer_names@.map(|i: int, s: String| s@)
    }

    /// The number of indices the geometry draws.
    pub closed spec fn index_len(&self) -> i32 {
        self.index_length
    }

    /// Records a geometry: the buffer names as given, and the index count,
    /// which must fit the signed count the draw call takes.
    pub fn new(vertex_buffer_names: Vec<String>, index_count: usize) -> (g: Geometry)
        requires
            index_count <= i32::MAX,
        ensures
            g.names() =~= vertex_buffer_names@.map(|i: int, s: String| s@),
            g.index_len() == index_count as i32,
    {
        Geometry { vertex_buffer_names, index_length: index_count as i32 }
    }

    /// The index count, as the draw call takes it.
    pub fn index_length(&self) -> (n: i32)
        ensures
            n == self.index_len(),
    {
        self.index_length
    }

    /// Outcome of a buffer-creation step: the graphics API either handed
    /// back a buffer object or it did not.
    pub fn create_buffer(created: bool) -> (r: Result<(), String>)
        ensures
            r is Ok <==> created,
            !created ==> r->Err_0@ == "Failed to create buffer"@,
    {
        if created {
            Ok(())
        } else {
            Err("Failed to create buffer".to_owned())
        }
    }
}

impl Renderer {
    /// A renderer; the graphics context it drives lives with the embedding
    /// shell.
    pub fn new() -> (r: Renderer) {
        Renderer {}
    }

    /// Plans the draw call: walks the geometry's vertex buffers in order and
    /// binds each one whose name the material's table knows, at that
    /// attribute's location and size.
    pub fn draw(&self, material: &Material, geometry: &Geometry) -> (plan: Vec<VertexBinding>)
        ensures
            plan@ == plan_spec(geometry.names(), material.attrs()),
            forall|k: int|
                0 <= k < plan@.len() ==> (#[trigger] plan@[k]).buffer_index
                    < geometry.names().len(),
    {
        let mut plan: Vec<VertexBinding> = Vec::new();
        let mut i: usize = 0;
        while i < geometry.vertex_buffer_names.len()
            invariant
                i <= geometry.vertex_buffer_names@.len(),
                plan@ == plan_spec(geometry.names().take(i as int), material.attrs()),
            decreases geometry.vertex_buffer_names@.len() - i,
        {
            proof {
                assert(geometry.names().take(i as int + 1).drop_last() =~= geometry.names().take(
                    i as int,
                ));
                assert(geometry.names().take(i as int + 1).last() == geometry.names()[i as int]);
            }
            match material.attribute_for(&geometry.vertex_buffer_names[i]) {
                Some(attribute) => {
                    plan.push(
                        VertexBinding {
                            buffer_index: i,
                            location: attribute.location,
                            size: attribute.size,
                        },
                    );
                },
                None => {},
            }
            i += 1;
        }
        proof {
            assert(geometry.names().take(geometry.names().len() as int) =~= geometry.names());
            lemma_plan_bindings_valid(geometry.names(), material.attrs());
        }
        plan
    }
}

/// Every step of a draw plan names a buffer the geometry has, and carries
/// exactly the location and size the material records for that buffer's name.
pub proof fn lemma_plan_bindings_valid(names: Seq<Seq<char>>, attrs: Seq<(Seq<char>, Attribute)>)
    requires
        names.len() <= usize::MAX,
    ensures
        forall|k: int|
            0 <= k < plan_spec(names, attrs).len() ==> (#[trigger] plan_spec(names, attrs)[k]).buffer_index
                < names.len() && lookup(attrs, names[plan_spec(names, attrs)[k].buffer_index as int])
                == Some(
                Attribute {
                    location: plan_spec(names, attrs)[k].location,
                    size: plan_spec(names, attrs)[k].size,
                },
            ),
    decreases names.len(),
{
    if names.len() > 0 {
        lemma_plan_bindings_valid(names.drop_last(), attrs);
        let rest = plan_spec(names.drop_last(), attrs);
        let plan = plan_spec(names, attrs);
        assert(forall|j: int|
            0 <= j < names.len() - 1 ==> #[trigger] names.drop_last()[j] == names[j]);
        assert forall|k: int| 0 <= k < plan.len() implies (#[trigger] plan[k]).buffer_index
            < names.len() && lookup(attrs, names[plan[k].buffer_index as int]) == Some(
            Attribute { location: plan[k].location, size: plan[k].size },
        ) by {
            match lookup(attrs, names.last()) {
                Some(a) => {
                    if k < rest.len() {
                        assert(plan[k] == rest[k]);
                        assert(rest[k].buffer_index < names.drop_last().len());
                    } else {
                        assert(plan[k] == VertexBinding {
                            buffer_index: (names.len() - 1) as usize,
                            location: a.location,
                            size: a.size,
                        });
                        assert(names.last() == names[names.len() - 1]);
                    }
                },
                None => {
                    assert(plan == rest);
                    assert(rest[k].buffer_index < names.drop_last().len());
                },
            }
        }
    }
}

} // verus!
