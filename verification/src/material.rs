//! What a material does with a ray that meets its surface.

use vstd::prelude::*;

verus! {

/// The material of a surface, with what is known of one ray's meeting with
/// it when the material is asked to scatter the ray.
#[derive(Clone, Copy, Debug, PartialEq, Eq, Structural)]
pub enum Material {
    /// A matte surface.
    Lambertian,
    /// A mirror, more or less rough. `leaves` says whether the mirrored
    /// direction, roughened, points out of the surface: whether its dot
    /// product with the surface normal is positive.
    Metal { leaves: bool },
    /// Glass. `refracts` says whether a refracted ray exists; there is none
    /// under total internal reflection. `reflects` says whether the random
    /// draw for this meeting fell below the reflectance.
    Dialectric { refracts: bool, reflects: bool },
}

/// The ray that a material sends on.
#[derive(Clone, Copy, Debug, PartialEq, Eq, Structural)]
pub enum Bounce {
    /// Along the surface normal, turned by a random unit vector.
    Diffuse,
    /// Along the mirrored direction, roughened.
    Mirror,
    /// Along the mirrored direction.
    Reflected,
    /// Along the refracted direction.
    Refracted,
}

impl Material {
    /// The ray that the material sends on; none where it absorbs the ray.
    ///
    /// A matte surface always scatters. A mirror scatters only a ray that
    /// leaves the surface. Glass always scatters: it reflects where no
    /// refracted ray exists or the draw fell below the reflectance, and
    /// refracts otherwise.
    pub open spec fn bounce(self) -> Option<Bounce> {
        match self {
            Material::Lambertian => Some(Bounce::Diffuse),
            Material::Metal { leaves } => if leaves {
                Some(Bounce::Mirror)
            } else {
                None
            },
            Material::Dialectric { refracts, reflects } => if !refracts || reflects {
                Some(Bounce::Reflected)
            } else {
                Some(Bounce::Refracted)
            },
        }
    }

    /// Decides how the material scatters the ray, or that it absorbs it.
    pub fn scatter(self) -> (out: Option<Bounce>)
        ensures
            out == self.bounce(),
            out is None <==> self == (Material::Metal { leaves: false }),
    {
        match self {
            Material::Lambertian => Some(Bounce::Diffuse),
            Material::Metal { leaves } => {
                if leaves {
                    Some(Bounce::Mirror)
                } else {
                    None
                }
            },
            Material::Dialectric { refracts, reflects } => {
                if !refracts {
                    Some(Bounce::Reflected)
                } else if reflects {
                    Some(Bounce::Reflected)
                } else {
                    Some(Bounce::Refracted)
                }
            },
        }
    }
}

/// A matte surface always scatters.
pub proof fn lemma_lambertian_scatters()
    ensures
        Material::Lambertian.bounce() is Some,
{
}

/// Glass never absorbs, and under total internal reflection it reflects
/// whatever was drawn.
pub proof fn lemma_dialectric_scatters(refracts: bool, reflects: bool)
    ensures
        (Material::Dialectric { refracts, reflects }).bounce() is Some,
        !refracts ==> (Material::Dialectric { refracts, reflects }).bounce() == Some(Bounce::Reflected),
{
}

/// A mirror scatters a ray that leaves the surface and absorbs one that
/// points into it.
pub proof fn lemma_metal_scatters_outward(leaves: bool)
    ensures
        (Material::Metal { leaves }).bounce() is Some <==> leaves,
{
}

} // verus!
