//! What the rendering layer decides before it talks to the graphics
//! library: which shaders a pipeline gets, which parameters a sampler gets.

use crate::fixed::Fixed;
use crate::fixed::SCALE;
use crate::unique_resource::ResourceDeleter;
use crate::unique_resource::UniqueResource;
use vstd::prelude::*;

verus! {

/// How a mapped buffer is accessed.
#[derive(Copy, Clone, Debug, PartialEq, Eq)]
pub enum BufferAccess {
    Read,
    Write,
    ReadWrite,
}

/// The stage of the pipeline that a shader program runs in.
#[derive(Copy, Clone, Debug, PartialEq, Eq)]
pub enum ShaderType {
    Vertex,
    Fragment,
}

/// Collects the shader programs of a pipeline.
pub struct PipelineBuilder<'a, D: ResourceDeleter<u32> + Default> {
    vertexshader: Option<&'a UniqueResource<u32, D>>,
    fragmentshader: Option<&'a UniqueResource<u32, D>>,
}

impl<'a, D: ResourceDeleter<u32> + Default> PipelineBuilder<'a, D> {
    /// The vertex shader that was added last, if any.
    pub closed spec fn vertex(&self) -> Option<&'a UniqueResource<u32, D>> {
        self.vertexshader
    }

    /// The fragment shader that was added last, if any.
    pub closed spec fn fragment(&self) -> Option<&'a UniqueResource<u32, D>> {
        self.fragmentshader
    }

    /// A builder that holds no shader.
    pub fn new() -> (b: Self)
        ensures
            b.vertex() is None,
            b.fragment() is None,
    {
        PipelineBuilder { vertexshader: None, fragmentshader: None }
    }

    /// Makes `vs` the vertex shader of the pipeline.
    pub fn add_vertex_shader(&mut self, vs: &'a UniqueResource<u32, D>) -> (b: &mut Self)
        ensures
            b.vertex() == Some(vs),
            b.fragment() == old(self).fragment(),
            *final(self) == *final(b),
    {
        self.vertexshader = Some(vs);
        self
    }

    /// Makes `fs` the fragment shader of the pipeline.
    pub fn add_fragment_shader(&mut self, fs: &'a UniqueResource<u32, D>) -> (b: &mut Self)
        ensures
            b.fragment() == Some(fs),
            b.vertex() == old(self).vertex(),
            *final(self) == *final(b),
    {
        self.fragmentshader = Some(fs);
        self
    }

    /// The vertex shader that was added last, if any.
    pub fn vertex_shader(&self) -> (s: Option<&'a UniqueResource<u32, D>>)
        ensures
            s == self.vertex(),
    {
        self.vertexshader
    }

    /// The fragment shader that was added last, if any.
    pub fn fragment_shader(&self) -> (s: Option<&'a UniqueResource<u32, D>>)
        ensures
            s == self.fragment(),
    {
        self.fragmentshader
    }
}

/// A parameter of a sampler that a builder can set.
#[derive(Copy, Clone, Debug, PartialEq, Eq)]
pub enum SamplerParameter {
    MinFilter,
    MagFilter,
    WrapS,
    WrapT,
}

/// Collects the parameters of a texture sampler.
#[derive(Copy, Clone, Debug, PartialEq, Eq)]
pub struct SamplerBuilder {
    pub border_color: Option<(Fixed, Fixed, Fixed, Fixed)>,
    pub mag_filter: Option<i32>,
    pub min_filter: Option<i32>,
    pub wrap_s: Option<i32>,
    pub wrap_t: Option<i32>,
}

/// The parameters that a sampler gets from a builder, in the order in which
/// they are set: each one that the builder holds, with its value.
pub open spec fn sampler_parameters(b: SamplerBuilder) -> Seq<(SamplerParameter, i32)> {
    let none = Seq::<(SamplerParameter, i32)>::empty();
    (if b.min_filter is Some {
        seq![(SamplerParameter::MinFilter, b.min_filter->0)]
    } else {
        none
    }) + (if b.mag_filter is Some {
        seq![(SamplerParameter::MagFilter, b.mag_filter->0)]
    } else {
        none
    }) + (if b.wrap_s is Some {
        seq![(SamplerParameter::WrapS, b.wrap_s->0)]
    } else {
        none
    }) + (if b.wrap_t is Some {
        seq![(SamplerParameter::WrapT, b.wrap_t->0)]
    } else {
        none
    })
}

impl SamplerBuilder {
    /// A builder that holds no parameter.
    pub fn new() -> (b: SamplerBuilder)
        ensures
            b == (SamplerBuilder {
                border_color: None,
                mag_filter: None,
                min_filter: None,
                wrap_s: None,
                wrap_t: None,
            }),
    {
        SamplerBuilder {
            border_color: None,
            mag_filter: None,
            min_filter: None,
            wrap_s: None,
            wrap_t: None,
        }
    }

    /// Sets an opaque border color.
    pub fn set_border_color(&mut self, r: Fixed, g: Fixed, b: Fixed) -> (s: &mut Self)
        ensures
            *s == (SamplerBuilder {
                border_color: Some((r, g, b, Fixed { raw: SCALE })),
                ..*old(self)
            }),
            *final(self) == *final(s),
    {
        self.border_color = Some((r, g, b, Fixed::from_raw(SCALE)));
        self
    }

    /// Sets the filter for minification.
    pub fn set_min_filter(&mut self, minfilter: i32) -> (s: &mut Self)
        ensures
            *s == (SamplerBuilder { min_filter: Some(minfilter), ..*old(self) }),
            *final(self) == *final(s),
    {
        self.min_filter = Some(minfilter);
        self
    }

    /// Sets the filter for magnification.
    pub fn set_mag_filter(&mut self, magfilter: i32) -> (s: &mut Self)
        ensures
            *s == (SamplerBuilder { mag_filter: Some(magfilter), ..*old(self) }),
            *final(self) == *final(s),
    {
        self.mag_filter = Some(magfilter);
        self
    }

    /// The parameters to set on the sampler, in order.
    pub fn parameters(&self) -> (p: Vec<(SamplerParameter, i32)>)
        ensures
            p@ == sampler_parameters(*self),
    {
        let mut p: Vec<(SamplerParameter, i32)> = Vec::new();
        if let Some(minflt) = self.min_filter {
            p.push((SamplerParameter::MinFilter, minflt));
        }
        if let Some(magflt) = self.mag_filter {
            p.push((SamplerParameter::MagFilter, magflt));
        }
        if let Some(wraps) = self.wrap_s {
            p.push((SamplerParameter::WrapS, wraps));
        }
        if let Some(wrapt) = self.wrap_t {
            p.push((SamplerParameter::WrapT, wrapt));
        }
        assert(p@ =~= sampler_parameters(*self));
        p
    }
}

/// The indices of the triangles of a fan of `tess_factor` triangles about
/// the vertex 0: the `k`-th triangle joins the vertices `0`, `k + 1` and
/// `k + 2`.
pub open spec fn fan_indices(tess_factor: u32) -> Seq<u16> {
    Seq::new(
        3 * tess_factor as nat,
        |i: int|
            if i % 3 == 0 {
                0u16
            } else {
                (i / 3 + i % 3) as u16
            },
    )
}

/// The indices of the triangles of a circle that is drawn as a fan of
/// `tess_factor` triangles about its centre.
pub fn generate_circle_indices(tess_factor: u32) -> (indices: Vec<u16>)
    requires
        tess_factor + 1 <= u16::MAX,
    ensures
        indices@ == fan_indices(tess_factor),
{
    let mut indices: Vec<u16> = Vec::new();
    let mut idx: u32 = 0;
    while idx < tess_factor
        invariant
            idx <= tess_factor,
            tess_factor + 1 <= u16::MAX,
            indices@.len() == 3 * idx,
            forall|i: int| 0 <= i < 3 * idx ==> #[trigger] indices@[i] == fan_indices(tess_factor)[i],
        decreases tess_factor - idx,
    {
        indices.push(0u16);
        indices.push(idx as u16 + 1);
        indices.push(idx as u16 + 2);
        idx += 1;
    }
    assert(indices@ =~= fan_indices(tess_factor));
    indices
}

} // verus!
