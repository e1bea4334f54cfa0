use vstd::prelude::*;

verus! {

/// OpenGL enum value that reports a uniform of GLSL type `int`.
pub const GL_INT: u32 = 0x1404;

/// OpenGL enum value that reports a uniform of GLSL type `uint`.
pub const GL_UNSIGNED_INT: u32 = 0x1405;

/// OpenGL enum value that reports a uniform of GLSL type `bool`.
pub const GL_BOOL: u32 = 0x8B56;

/// OpenGL enum value that reports a uniform of GLSL type `float`.
pub const GL_FLOAT: u32 = 0x1406;

/// OpenGL enum value that reports a uniform of GLSL type `double`.
pub const GL_DOUBLE: u32 = 0x140A;

/// OpenGL enum value that reports a uniform of GLSL type `vec2`.
pub const GL_FLOAT_VEC2: u32 = 0x8B50;

/// OpenGL enum value that reports a uniform of GLSL type `vec3`.
pub const GL_FLOAT_VEC3: u32 = 0x8B51;

/// OpenGL enum value that reports a uniform of GLSL type `vec4`.
pub const GL_FLOAT_VEC4: u32 = 0x8B52;

/// OpenGL enum value that reports a uniform of GLSL type `mat2`.
pub const GL_FLOAT_MAT2: u32 = 0x8B5A;

/// OpenGL enum value that reports a uniform of GLSL type `mat3`.
pub const GL_FLOAT_MAT3: u32 = 0x8B5B;

/// OpenGL enum value that reports a uniform of GLSL type `mat4`.
pub const GL_FLOAT_MAT4: u32 = 0x8B5C;

/// OpenGL enum value that reports a uniform of GLSL type `sampler2D`.
pub const GL_SAMPLER_2D: u32 = 0x8B5E;

/// The GLSL types of uniform that a program can hand out handles for.
#[derive(Clone, Copy, Debug, PartialEq, Eq, Structural)]
pub enum UniformKind {
    Int,
    UInt,
    Bool,
    Float,
    Double,
    Vec2,
    Vec3,
    Vec4,
    Mat2,
    Mat3,
    Mat4,
    Sampler2D,
}

/// The kind that the OpenGL type code `code` stands for, if it is one of the
/// supported ones.
pub open spec fn kind_of_gl_type(code: u32) -> Option<UniformKind> {
    if code == GL_INT {
        Some(UniformKind::Int)
    } else if code == GL_UNSIGNED_INT {
        Some(UniformKind::UInt)
    } else if code == GL_BOOL {
        Some(UniformKind::Bool)
    } else if code == GL_FLOAT {
        Some(UniformKind::Float)
    } else if code == GL_DOUBLE {
        Some(UniformKind::Double)
    } else if code == GL_FLOAT_VEC2 {
        Some(UniformKind::Vec2)
    } else if code == GL_FLOAT_VEC3 {
        Some(UniformKind::Vec3)
    } else if code == GL_FLOAT_VEC4 {
        Some(UniformKind::Vec4)
    } else if code == GL_FLOAT_MAT2 {
        Some(UniformKind::Mat2)
    } else if code == GL_FLOAT_MAT3 {
        Some(UniformKind::Mat3)
    } else if code == GL_FLOAT_MAT4 {
        Some(UniformKind::Mat4)
    } else if code == GL_SAMPLER_2D {
        Some(UniformKind::Sampler2D)
    } else {
        None
    }
}

/// The OpenGL type code of a kind.
pub open spec fn spec_gl_type(k: UniformKind) -> u32 {
    match k {
        UniformKind::Int => GL_INT,
        UniformKind::UInt => GL_UNSIGNED_INT,
        UniformKind::Bool => GL_BOOL,
        UniformKind::Float => GL_FLOAT,
        UniformKind::Double => GL_DOUBLE,
        UniformKind::Vec2 => GL_FLOAT_VEC2,
        UniformKind::Vec3 => GL_FLOAT_VEC3,
        UniformKind::Vec4 => GL_FLOAT_VEC4,
        UniformKind::Mat2 => GL_FLOAT_MAT2,
        UniformKind::Mat3 => GL_FLOAT_MAT3,
        UniformKind::Mat4 => GL_FLOAT_MAT4,
        UniformKind::Sampler2D => GL_SAMPLER_2D,
    }
}

impl UniformKind {
    /// The kind that an OpenGL type code reports, or `None` for a code that
    /// has no handle type here.
    pub fn from_gl_type(code: u32) -> (r: Option<UniformKind>)
        ensures
            r == kind_of_gl_type(code),
    {
        if code == GL_INT {
            Some(UniformKind::Int)
        } else if code == GL_UNSIGNED_INT {
            Some(UniformKind::UInt)
        } else if code == GL_BOOL {
            Some(UniformKind::Bool)
        } else if code == GL_FLOAT {
            Some(UniformKind::Float)
        } else if code == GL_DOUBLE {
            Some(UniformKind::Double)
        } else if code == GL_FLOAT_VEC2 {
            Some(UniformKind::Vec2)
        } else if code == GL_FLOAT_VEC3 {
            Some(UniformKind::Vec3)
        } else if code == GL_FLOAT_VEC4 {
            Some(UniformKind::Vec4)
        } else if code == GL_FLOAT_MAT2 {
            Some(UniformKind::Mat2)
        } else if code == GL_FLOAT_MAT3 {
            Some(UniformKind::Mat3)
        } else if code == GL_FLOAT_MAT4 {
            Some(UniformKind::Mat4)
        } else if code == GL_SAMPLER_2D {
            Some(UniformKind::Sampler2D)
        } else {
            None
        }
    }

    /// The OpenGL type code that reports this kind.
    pub fn gl_type(&self) -> (r: u32)
        ensures
            r == spec_gl_type(*self),
            kind_of_gl_type(r) == Some(*self),
    {
        match self {
            UniformKind::Int => GL_INT,
            UniformKind::UInt => GL_UNSIGNED_INT,
            UniformKind::Bool => GL_BOOL,
            UniformKind::Float => GL_FLOAT,
            UniformKind::Double => GL_DOUBLE,
            UniformKind::Vec2 => GL_FLOAT_VEC2,
            UniformKind::Vec3 => GL_FLOAT_VEC3,
            UniformKind::Vec4 => GL_FLOAT_VEC4,
            UniformKind::Mat2 => GL_FLOAT_MAT2,
            UniformKind::Mat3 => GL_FLOAT_MAT3,
            UniformKind::Mat4 => GL_FLOAT_MAT4,
            UniformKind::Sampler2D => GL_SAMPLER_2D,
        }
    }
}

/// What a program reports of one active uniform: where it lives, its name,
/// and how many elements it has (1 unless it is an array).
pub struct UniformDefinition {
    id: u32,
    name: String,
    data_size: i32,
}

impl UniformDefinition {
    pub fn new(id: u32, name: String, data_size: i32) -> (r: Self)
        ensures
            r.spec_id() == id,
            r.spec_name() == name@,
            r.spec_data_size() == data_size,
    {
        UniformDefinition { id, name, data_size }
    }

    pub closed spec fn spec_id(&self) -> u32 {
        self.id
    }

    pub closed spec fn spec_name(&self) -> Seq<char> {
        self.name@
    }

    pub closed spec fn spec_data_size(&self) -> i32 {
        self.data_size
    }

    /// The location that values of this uniform are written to.
    pub fn id(&self) -> (r: u32)
        ensures
            r == self.spec_id(),
    {
        self.id
    }

    pub fn name(&self) -> (r: &str)
        ensures
            r@ == self.spec_name(),
    {
        self.name.as_str()
    }

    pub fn data_size(&self) -> (r: i32)
        ensures
            r == self.spec_data_size(),
    {
        self.data_size
    }

    /// Whether this uniform is called `name`.
    pub fn has_name(&self, name: &String) -> (r: bool)
        ensures
            r == (self.spec_name() == name@),
    {
        self.name.eq(name)
    }

    /// A second definition with the same fields.
    pub fn duplicate(&self) -> (r: Self)
        ensures
            r.spec_id() == self.spec_id(),
            r.spec_name() == self.spec_name(),
            r.spec_data_size() == self.spec_data_size(),
    {
        UniformDefinition { id: self.id, name: self.name.clone(), data_size: self.data_size }
    }
}

/// Handle of a uniform of GLSL type `int`.
pub struct IntUniform {
    def: UniformDefinition,
}

/// Handle of a uniform of GLSL type `uint`.
pub struct UIntUniform {
    def: UniformDefinition,
}

/// Handle of a uniform of GLSL type `bool`.
pub struct BoolUniform {
    def: UniformDefinition,
}

/// Handle of a uniform of GLSL type `float`.
pub struct FloatUniform {
    def: UniformDefinition,
}

/// Handle of a uniform of GLSL type `double`.
pub struct DoubleUniform {
    def: UniformDefinition,
}

/// Handle of a uniform of GLSL type `vec2`.
pub struct Vec2Uniform {
    def: UniformDefinition,
}

/// Handle of a uniform of GLSL type `vec3`.
pub struct Vec3Uniform {
    def: UniformDefinition,
}

/// Handle of a uniform of GLSL type `vec4`.
pub struct Vec4Uniform {
    def: UniformDefinition,
}

/// Handle of a uniform of GLSL type `mat2`.
pub struct Mat2Uniform {
    def: UniformDefinition,
}

/// Handle of a uniform of GLSL type `mat3`.
pub struct Mat3Uniform {
    def: UniformDefinition,
}

/// Handle of a uniform of GLSL type `mat4`.
pub struct Mat4Uniform {
    def: UniformDefinition,
}

/// Handle of a uniform of GLSL type `sampler2D`.
pub struct Sampler2DUniform {
    def: UniformDefinition,
}

/// A uniform of a linked program, tagged with its GLSL type.
pub enum Uniform {
    Int(IntUniform),
    UInt(UIntUniform),
    Bool(BoolUniform),
    Float(FloatUniform),
    Double(DoubleUniform),
    Vec2(Vec2Uniform),
    Vec3(Vec3Uniform),
    Vec4(Vec4Uniform),
    Mat2(Mat2Uniform),
    Mat3(Mat3Uniform),
    Mat4(Mat4Uniform),
    Sampler2D(Sampler2DUniform),
}

impl Uniform {
    pub closed spec fn spec_kind(&self) -> UniformKind {
        match self {
            Uniform::Int(_) => UniformKind::Int,
            Uniform::UInt(_) => UniformKind::UInt,
            Uniform::Bool(_) => UniformKind::Bool,
            Uniform::Float(_) => UniformKind::Float,
            Uniform::Double(_) => UniformKind::Double,
            Uniform::Vec2(_) => UniformKind::Vec2,
            Uniform::Vec3(_) => UniformKind::Vec3,
            Uniform::Vec4(_) => UniformKind::Vec4,
            Uniform::Mat2(_) => UniformKind::Mat2,
            Uniform::Mat3(_) => UniformKind::Mat3,
            Uniform::Mat4(_) => UniformKind::Mat4,
            Uniform::Sampler2D(_) => UniformKind::Sampler2D,
        }
    }

    pub closed spec fn spec_def(&self) -> UniformDefinition {
        match self {
            Uniform::Int(u) => u.def,
            Uniform::UInt(u) => u.def,
            Uniform::Bool(u) => u.def,
            Uniform::Float(u) => u.def,
            Uniform::Double(u) => u.def,
            Uniform::Vec2(u) => u.def,
            Uniform::Vec3(u) => u.def,
            Uniform::Vec4(u) => u.def,
            Uniform::Mat2(u) => u.def,
            Uniform::Mat3(u) => u.def,
            Uniform::Mat4(u) => u.def,
            Uniform::Sampler2D(u) => u.def,
        }
    }

    /// Tags `def` with the kind that `gl_type` reports; `None` when the code
    /// has no handle type here.
    pub fn from_type(gl_type: u32, def: UniformDefinition) -> (r: Option<Uniform>)
        ensures
            r is Some <==> kind_of_gl_type(gl_type) is Some,
            r matches Some(u) ==> Some(u.spec_kind()) == kind_of_gl_type(gl_type) && u.spec_def()
                == def,
    {
        match UniformKind::from_gl_type(gl_type) {
            None => None,
            Some(UniformKind::Int) => Some(Uniform::Int(IntUniform { def })),
            Some(UniformKind::UInt) => Some(Uniform::UInt(UIntUniform { def })),
            Some(UniformKind::Bool) => Some(Uniform::Bool(BoolUniform { def })),
            Some(UniformKind::Float) => Some(Uniform::Float(FloatUniform { def })),
            Some(UniformKind::Double) => Some(Uniform::Double(DoubleUniform { def })),
            Some(UniformKind::Vec2) => Some(Uniform::Vec2(Vec2Uniform { def })),
            Some(UniformKind::Vec3) => Some(Uniform::Vec3(Vec3Uniform { def })),
            Some(UniformKind::Vec4) => Some(Uniform::Vec4(Vec4Uniform { def })),
            Some(UniformKind::Mat2) => Some(Uniform::Mat2(Mat2Uniform { def })),
            Some(UniformKind::Mat3) => Some(Uniform::Mat3(Mat3Uniform { def })),
            Some(UniformKind::Mat4) => Some(Uniform::Mat4(Mat4Uniform { def })),
            Some(UniformKind::Sampler2D) => Some(Uniform::Sampler2D(Sampler2DUniform { def })),
        }
    }

    pub fn kind(&self) -> (r: UniformKind)
        ensures
            r == self.spec_kind(),
    {
        match self {
            Uniform::Int(_) => UniformKind::Int,
            Uniform::UInt(_) => UniformKind::UInt,
            Uniform::Bool(_) => UniformKind::Bool,
            Uniform::Float(_) => UniformKind::Float,
            Uniform::Double(_) => UniformKind::Double,
            Uniform::Vec2(_) => UniformKind::Vec2,
            Uniform::Vec3(_) => UniformKind::Vec3,
            Uniform::Vec4(_) => UniformKind::Vec4,
            Uniform::Mat2(_) => UniformKind::Mat2,
            Uniform::Mat3(_) => UniformKind::Mat3,
            Uniform::Mat4(_) => UniformKind::Mat4,
            Uniform::Sampler2D(_) => UniformKind::Sampler2D,
        }
    }

    pub fn definition(&self) -> (r: &UniformDefinition)
        ensures
            *r == self.spec_def(),
    {
        match self {
            Uniform::Int(u) => &u.def,
            Uniform::UInt(u) => &u.def,
            Uniform::Bool(u) => &u.def,
            Uniform::Float(u) => &u.def,
            Uniform::Double(u) => &u.def,
            Uniform::Vec2(u) => &u.def,
            Uniform::Vec3(u) => &u.def,
            Uniform::Vec4(u) => &u.def,
            Uniform::Mat2(u) => &u.def,
            Uniform::Mat3(u) => &u.def,
            Uniform::Mat4(u) => &u.def,
            Uniform::Sampler2D(u) => &u.def,
        }
    }
}

impl IntUniform {
    pub closed spec fn spec_def(&self) -> UniformDefinition {
        self.def
    }

    /// A handle on `u` when the program reports it as `int`, and `None`
    /// when it reports another type.
    pub fn from_uniform(u: &Uniform) -> (r: Option<Self>)
        ensures
            r is Some <==> u.spec_kind() == UniformKind::Int,
            r matches Some(h) ==> h.spec_def().spec_id() == u.spec_def().spec_id()
                && h.spec_def().spec_name() == u.spec_def().spec_name()
                && h.spec_def().spec_data_size() == u.spec_def().spec_data_size(),
    {
        match u {
            Uniform::Int(h) => Some(IntUniform { def: h.def.duplicate() }),
            _ => None,
        }
    }

    pub fn definition(&self) -> (r: &UniformDefinition)
        ensures
            *r == self.spec_def(),
    {
        &self.def
    }
}

impl UIntUniform {
    pub closed spec fn spec_def(&self) -> UniformDefinition {
        self.def
    }

    /// A handle on `u` when the program reports it as `uint`, and `None`
    /// when it reports another type.
    pub fn from_uniform(u: &Uniform) -> (r: Option<Self>)
        ensures
            r is Some <==> u.spec_kind() == UniformKind::UInt,
            r matches Some(h) ==> h.spec_def().spec_id() == u.spec_def().spec_id()
                && h.spec_def().spec_name() == u.spec_def().spec_name()
                && h.spec_def().spec_data_size() == u.spec_def().spec_data_size(),
    {
        match u {
            Uniform::UInt(h) => Some(UIntUniform { def: h.def.duplicate() }),
            _ => None,
        }
    }

    pub fn definition(&self) -> (r: &UniformDefinition)
        ensures
            *r == self.spec_def(),
    {
        &self.def
    }
}

impl BoolUniform {
    pub closed spec fn spec_def(&self) -> UniformDefinition {
        self.def
    }

    /// A handle on `u` when the program reports it as `bool`, and `None`
    /// when it reports another type.
    pub fn from_uniform(u: &Uniform) -> (r: Option<Self>)
        ensures
            r is Some <==> u.spec_kind() == UniformKind::Bool,
            r matches Some(h) ==> h.spec_def().spec_id() == u.spec_def().spec_id()
                && h.spec_def().spec_name() == u.spec_def().spec_name()
                && h.spec_def().spec_data_size() == u.spec_def().spec_data_size(),
    {
        match u {
            Uniform::Bool(h) => Some(BoolUniform { def: h.def.duplicate() }),
            _ => None,
        }
    }

    pub fn definition(&self) -> (r: &UniformDefinition)
        ensures
            *r == self.spec_def(),
    {
        &self.def
    }
}

impl FloatUniform {
    pub closed spec fn spec_def(&self) -> UniformDefinition {
        self.def
    }

    /// A handle on `u` when the program reports it as `float`, and `None`
    /// when it reports another type.
    pub fn from_uniform(u: &Uniform) -> (r: Option<Self>)
        ensures
            r is Some <==> u.spec_kind() == UniformKind::Float,
            r matches Some(h) ==> h.spec_def().spec_id() == u.spec_def().spec_id()
                && h.spec_def().spec_name() == u.spec_def().spec_name()
                && h.spec_def().spec_data_size() == u.spec_def().spec_data_size(),
    {
        match u {
            Uniform::Float(h) => Some(FloatUniform { def: h.def.duplicate() }),
            _ => None,
        }
    }

    pub fn definition(&self) -> (r: &UniformDefinition)
        ensures
            *r == self.spec_def(),
    {
        &self.def
    }
}

impl DoubleUniform {
    pub closed spec fn spec_def(&self) -> UniformDefinition {
        self.def
    }

    /// A handle on `u` when the program reports it as `double`, and `None`
    /// when it reports another type.
    pub fn from_uniform(u: &Uniform) -> (r: Option<Self>)
        ensures
            r is Some <==> u.spec_kind() == UniformKind::Double,
            r matches Some(h) ==> h.spec_def().spec_id() == u.spec_def().spec_id()
                && h.spec_def().spec_name() == u.spec_def().spec_name()
                && h.spec_def().spec_data_size() == u.spec_def().spec_data_size(),
    {
        match u {
            Uniform::Double(h) => Some(DoubleUniform { def: h.def.duplicate() }),
            _ => None,
        }
    }

    pub fn definition(&self) -> (r: &UniformDefinition)
        ensures
            *r == self.spec_def(),
    {
        &self.def
    }
}

impl Vec2Uniform {
    pub closed spec fn spec_def(&self) -> UniformDefinition {
        self.def
    }

    /// A handle on `u` when the program reports it as `vec2`, and `None`
    /// when it reports another type.
    pub fn from_uniform(u: &Uniform) -> (r: Option<Self>)
        ensures
            r is Some <==> u.spec_kind() == UniformKind::Vec2,
            r matches Some(h) ==> h.spec_def().spec_id() == u.spec_def().spec_id()
                && h.spec_def().spec_name() == u.spec_def().spec_name()
                && h.spec_def().spec_data_size() == u.spec_def().spec_data_size(),
    {
        match u {
            Uniform::Vec2(h) => Some(Vec2Uniform { def: h.def.duplicate() }),
            _ => None,
        }
    }

    pub fn definition(&self) -> (r: &UniformDefinition)
        ensures
            *r == self.spec_def(),
    {
        &self.def
    }
}

impl Vec3Uniform {
    pub closed spec fn spec_def(&self) -> UniformDefinition {
        self.def
    }

    /// A handle on `u` when the program reports it as `vec3`, and `None`
    /// when it reports another type.
    pub fn from_uniform(u: &Uniform) -> (r: Option<Self>)
        ensures
            r is Some <==> u.spec_kind() == UniformKind::Vec3,
            r matches Some(h) ==> h.spec_def().spec_id() == u.spec_def().spec_id()
                && h.spec_def().spec_name() == u.spec_def().spec_name()
                && h.spec_def().spec_data_size() == u.spec_def().spec_data_size(),
    {
        match u {
            Uniform::Vec3(h) => Some(Vec3Uniform { def: h.def.duplicate() }),
            _ => None,
        }
    }

    pub fn definition(&self) -> (r: &UniformDefinition)
        ensures
            *r == self.spec_def(),
    {
        &self.def
    }
}

impl Vec4Uniform {
    pub closed spec fn spec_def(&self) -> UniformDefinition {
        self.def
    }

    /// A handle on `u` when the program reports it as `vec4`, and `None`
    /// when it reports another type.
    pub fn from_uniform(u: &Uniform) -> (r: Option<Self>)
        ensures
            r is Some <==> u.spec_kind() == UniformKind::Vec4,
            r matches Some(h) ==> h.spec_def().spec_id() == u.spec_def().spec_id()
                && h.spec_def().spec_name() == u.spec_def().spec_name()
                && h.spec_def().spec_data_size() == u.spec_def().spec_data_size(),
    {
        match u {
            Uniform::Vec4(h) => Some(Vec4Uniform { def: h.def.duplicate() }),
            _ => None,
        }
    }

    pub fn definition(&self) -> (r: &UniformDefinition)
        ensures
            *r == self.spec_def(),
    {
        &self.def
    }
}

impl Mat2Uniform {
    pub closed spec fn spec_def(&self) -> UniformDefinition {
        self.def
    }

    /// A handle on `u` when the program reports it as `mat2`, and `None`
    /// when it reports another type.
    pub fn from_uniform(u: &Uniform) -> (r: Option<Self>)
        ensures
            r is Some <==> u.spec_kind() == UniformKind::Mat2,
            r matches Some(h) ==> h.spec_def().spec_id() == u.spec_def().spec_id()
                && h.spec_def().spec_name() == u.spec_def().spec_name()
                && h.spec_def().spec_data_size() == u.spec_def().spec_data_size(),
    {
        match u {
            Uniform::Mat2(h) => Some(Mat2Uniform { def: h.def.duplicate() }),
            _ => None,
        }
    }

    pub fn definition(&self) -> (r: &UniformDefinition)
        ensures
            *r == self.spec_def(),
    {
        &self.def
    }
}

impl Mat3Uniform {
    pub closed spec fn spec_def(&self) -> UniformDefinition {
        self.def
    }

    /// A handle on `u` when the program reports it as `mat3`, and `None`
    /// when it reports another type.
    pub fn from_uniform(u: &Uniform) -> (r: Option<Self>)
        ensures
            r is Some <==> u.spec_kind() == UniformKind::Mat3,
            r matches Some(h) ==> h.spec_def().spec_id() == u.spec_def().spec_id()
                && h.spec_def().spec_name() == u.spec_def().spec_name()
                && h.spec_def().spec_data_size() == u.spec_def().spec_data_size(),
    {
        match u {
            Uniform::Mat3(h) => Some(Mat3Uniform { def: h.def.duplicate() }),
            _ => None,
        }
    }

    pub fn definition(&self) -> (r: &UniformDefinition)
        ensures
            *r == self.spec_def(),
    {
        &self.def
    }
}

impl Mat4Uniform {
    pub closed spec fn spec_def(&self) -> UniformDefinition {
        self.def
    }

    /// A handle on `u` when the program reports it as `mat4`, and `None`
    /// when it reports another type.
    pub fn from_uniform(u: &Uniform) -> (r: Option<Self>)
        ensures
            r is Some <==> u.spec_kind() == UniformKind::Mat4,
            r matches Some(h) ==> h.spec_def().spec_id() == u.spec_def().spec_id()
                && h.spec_def().spec_name() == u.spec_def().spec_name()
                && h.spec_def().spec_data_size() == u.spec_def().spec_data_size(),
    {
        match u {
            Uniform::Mat4(h) => Some(Mat4Uniform { def: h.def.duplicate() }),
            _ => None,
        }
    }

    pub fn definition(&self) -> (r: &UniformDefinition)
        ensures
            *r == self.spec_def(),
    {
        &self.def
    }
}

impl Sampler2DUniform {
    pub closed spec fn spec_def(&self) -> UniformDefinition {
        self.def
    }

    /// A handle on `u` when the program reports it as `sampler2D`, and `None`
    /// when it reports another type.
    pub fn from_uniform(u: &Uniform) -> (r: Option<Self>)
        ensures
            r is Some <==> u.spec_kind() == UniformKind::Sampler2D,
            r matches Some(h) ==> h.spec_def().spec_id() == u.spec_def().spec_id()
                && h.spec_def().spec_name() == u.spec_def().spec_name()
                && h.spec_def().spec_data_size() == u.spec_def().spec_data_size(),
    {
        match u {
            Uniform::Sampler2D(h) => Some(Sampler2DUniform { def: h.def.duplicate() }),
            _ => None,
        }
    }

    pub fn definition(&self) -> (r: &UniformDefinition)
        ensures
            *r == self.spec_def(),
    {
        &self.def
    }
}

} // verus!
