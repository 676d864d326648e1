//! Surface materials.
use vstd::prelude::*;
use crate::scalar::Scalar;
use crate::vec3::Vec3;

verus! {

/// The optical parameters of a surface. Shading reads the diffuse and the
/// emissive colour; the other fields are kept as delivered.
#[derive(Clone, Copy, Debug, PartialEq, Eq, Structural)]
pub struct Material {
    pub ambient_color: Vec3,
    pub diffuse_color: Vec3,
    pub specular_color: Vec3,
    pub specular_highlight: Scalar,
    pub emissive_color: Vec3,
    pub transparency: Scalar,
    pub index_of_refraction: Scalar,
}

impl Material {
    /// All colours black, no highlight, no transparency, refraction index one.
    pub open spec fn default_spec() -> Material {
        Material {
            ambient_color: Vec3::zero(),
            diffuse_color: Vec3::zero(),
            specular_color: Vec3::zero(),
            specular_highlight: Scalar::zero(),
            emissive_color: Vec3::zero(),
            transparency: Scalar::zero(),
            index_of_refraction: Scalar::one(),
        }
    }

    pub fn new(
        ambient_color: Vec3,
        diffuse_color: Vec3,
        specular_color: Vec3,
        specular_highlight: Scalar,
        emissive_color: Vec3,
        transparency: Scalar,
        index_of_refraction: Scalar,
    ) -> (m: Material)
        ensures
            m == (Material {
                ambient_color,
                diffuse_color,
                specular_color,
                specular_highlight,
                emissive_color,
                transparency,
                index_of_refraction,
            }),
    {
        Material {
            ambient_color,
            diffuse_color,
            specular_color,
            specular_highlight,
            emissive_color,
            transparency,
            index_of_refraction,
        }
    }
}

impl Default for Material {
    fn default() -> (m: Material)
        ensures
            m == Material::default_spec(),
    {
        Material::new(
            Vec3::zero(),
            Vec3::zero(),
            Vec3::zero(),
            Scalar::zero(),
            Vec3::zero(),
            Scalar::zero(),
            Scalar::one(),
        )
    }
}

/// One line of the description of a material.
#[derive(Debug, Clone, Copy, PartialEq, Eq, Structural)]
pub enum MaterialProperty {
    AmbientColor(Vec3),
    DiffuseColor(Vec3),
    SpecularColor(Vec3),
    EmissiveColor(Vec3),
    SpecularHighlight(Scalar),
    Transparency(Scalar),
    IndexOfRefraction(Scalar),
    /// The illumination model, which shading does not look at.
    IlluminationModel(u32),
}

impl Material {
    /// The material with one property set anew.
    pub open spec fn with(self, property: MaterialProperty) -> Material {
        match property {
            MaterialProperty::AmbientColor(c) => Material { ambient_color: c, ..self },
            MaterialProperty::DiffuseColor(c) => Material { diffuse_color: c, ..self },
            MaterialProperty::SpecularColor(c) => Material { specular_color: c, ..self },
            MaterialProperty::EmissiveColor(c) => Material { emissive_color: c, ..self },
            MaterialProperty::SpecularHighlight(h) => Material { specular_highlight: h, ..self },
            MaterialProperty::Transparency(t) => Material { transparency: t, ..self },
            MaterialProperty::IndexOfRefraction(i) => Material { index_of_refraction: i, ..self },
            MaterialProperty::IlluminationModel(_) => self,
        }
    }
}

/// The material that a list of properties describes: each property as the
/// last line of its kind gives it, and as in [`Material::default_spec`]
/// where no line gives it.
pub open spec fn material_of(properties: Seq<MaterialProperty>) -> Material
    decreases properties.len(),
{
    if properties.len() == 0 {
        Material::default_spec()
    } else {
        material_of(properties.drop_last()).with(properties.last())
    }
}

/// Makes a material of a list of properties. What no property gives takes
/// its default; of two properties of one kind the later wins.
pub fn material_from_properties(properties: &[MaterialProperty]) -> (m: Material)
    ensures
        m == material_of(properties@),
{
    let mut material = Material::default();
    let mut i: usize = 0;
    while i < properties.len()
        invariant
            i <= properties@.len(),
            material == material_of(properties@.subrange(0, i as int)),
        decreases properties@.len() - i,
    {
        assert(properties@.subrange(0, i + 1).drop_last() == properties@.subrange(0, i as int));
        match properties[i] {
            MaterialProperty::AmbientColor(c) => {
                material.ambient_color = c;
            },
            MaterialProperty::DiffuseColor(c) => {
                material.diffuse_color = c;
            },
            MaterialProperty::SpecularColor(c) => {
                material.specular_color = c;
            },
            MaterialProperty::EmissiveColor(c) => {
                material.emissive_color = c;
            },
            MaterialProperty::SpecularHighlight(h) => {
                material.specular_highlight = h;
            },
            MaterialProperty::Transparency(t) => {
                material.transparency = t;
            },
            MaterialProperty::IndexOfRefraction(i) => {
                material.index_of_refraction = i;
            },
            MaterialProperty::IlluminationModel(_) => {},
        }
        i += 1;
    }
    assert(properties@.subrange(0, properties@.len() as int) == properties@);
    material
}

/// The last diffuse and the last emissive colour of a list of properties
/// are those of its material.
pub proof fn lemma_last_color_wins(properties: Seq<MaterialProperty>, at: int)
    requires
        0 <= at < properties.len(),
    ensures
        properties[at] is DiffuseColor && (forall|j: int|
            at < j < properties.len() ==> !(properties[j] is DiffuseColor)) ==> material_of(properties).diffuse_color
            == properties[at]->DiffuseColor_0,
        properties[at] is EmissiveColor && (forall|j: int|
            at < j < properties.len() ==> !(properties[j] is EmissiveColor)) ==> material_of(
            properties,
        ).emissive_color == properties[at]->EmissiveColor_0,
    decreases properties.len(),
{
    if at < properties.len() - 1 {
        lemma_last_color_wins(properties.drop_last(), at);
    }
}

} // verus!
