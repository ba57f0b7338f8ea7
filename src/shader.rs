//! Shader stages and typed uniform resolution.
//!
//! The driver compiles sources and lists a linked program's active uniforms;
//! what it reports comes here as plain values. A [`Stage`] owns one compiled
//! stage, and a [`UniformBuilder`] turns uniform names into typed
//! [`Uniform`] handles.
use crate::gl;
use std::marker::PhantomData;
use vstd::prelude::*;

verus! {

/// Kind of a shader stage.
#[derive(Clone, Copy, Debug, PartialEq, Eq, Structural)]
pub enum StageType {
    VertexShader,
    TessellationControlShader,
    TessellationEvaluationShader,
    GeometryShader,
    FragmentShader,
}

/// Why a stage could not be built.
#[derive(Clone, Debug, PartialEq, Eq)]
pub enum StageError {
    /// The driver refused the source; the driver's log, verbatim.
    CompilationFailed(StageType, String),
    /// WebGL2 has no such stage.
    UnsupportedType(StageType),
}

/// The driver's shader kind for a stage type, if WebGL2 has such stages.
pub open spec fn gl_stage_kind(ty: StageType) -> Option<u32> {
    match ty {
        StageType::VertexShader => Some(gl::VERTEX_SHADER),
        StageType::FragmentShader => Some(gl::FRAGMENT_SHADER),
        _ => None,
    }
}

/// What the driver reported after compiling the source of one stage.
#[derive(Clone, Debug)]
pub struct CompileReport {
    /// The shader object that was created for the source.
    pub shader: u32,
    /// The compile status.
    pub compiled: bool,
    /// The info log.
    pub log: String,
}

/// The driver's shader kind for a stage type; WebGL2 only has vertex and
/// fragment stages.
pub fn shader_kind(ty: StageType) -> (r: Result<u32, StageError>)
    ensures
        match gl_stage_kind(ty) {
            Some(k) => r matches Ok(x) && x == k,
            None => r matches Err(StageError::UnsupportedType(t)) && t == ty,
        },
{
    match ty {
        StageType::VertexShader => Ok(gl::VERTEX_SHADER),
        StageType::FragmentShader => Ok(gl::FRAGMENT_SHADER),
        _ => Err(StageError::UnsupportedType(ty)),
    }
}

/// One compiled shader stage, owning its shader object.
#[derive(Debug)]
pub struct Stage {
    handle: u32,
    ty: StageType,
}

impl View for Stage {
    /// The shader object and the stage type.
    type V = (u32, StageType);

    closed spec fn view(&self) -> (u32, StageType) {
        (self.handle, self.ty)
    }
}

impl Stage {
    /// Wraps the outcome of compiling a stage: the stage owns the shader
    /// object when the driver compiled it, and otherwise the driver's log
    /// comes back verbatim and no stage exists.
    pub fn new(ty: StageType, report: CompileReport) -> (r: Result<Stage, StageError>)
        ensures
            gl_stage_kind(ty) is None ==> (r matches Err(StageError::UnsupportedType(t)) && t
                == ty),
            gl_stage_kind(ty) is Some && report.compiled ==> (r matches Ok(s) && s@ == (
                report.shader,
                ty,
            )),
            gl_stage_kind(ty) is Some && !report.compiled ==> (r matches Err(
                StageError::CompilationFailed(t, log),
            ) && t == ty && log@ == report.log@),
    {
        if let Err(e) = shader_kind(ty) {
            return Err(e);
        }
        if report.compiled {
            Ok(Stage { handle: report.shader, ty })
        } else {
            Err(StageError::CompilationFailed(ty, report.log))
        }
    }

    /// The shader object.
    pub fn handle(&self) -> (r: u32)
        ensures
            r == self@.0,
    {
        self.handle
    }

    /// The stage type.
    pub fn stage_type(&self) -> (r: StageType)
        ensures
            r == self@.1,
    {
        self.ty
    }

    /// Gives up the stage; the shader object that comes back is to be
    /// deleted. Taking the stage by value makes this happen at most once.
    pub fn destroy(self) -> (r: u32)
        ensures
            r == self@.0,
    {
        self.handle
    }
}

/// Type of a uniform as the driver declares it.
#[derive(Clone, Copy, Debug, PartialEq, Eq, Structural)]
pub enum UniformType {
    Int,
    UInt,
    Float,
    Bool,
    IVec2,
    IVec3,
    IVec4,
    UIVec2,
    UIVec3,
    UIVec4,
    Vec2,
    Vec3,
    Vec4,
    BVec2,
    BVec3,
    BVec4,
    M22,
    M33,
    M44,
    Sampler2D,
    Sampler3D,
    SamplerCube,
    /// A type that this crate does not list, with the driver's code for it.
    Other(u32),
}

/// The driver's code for a uniform type.
pub open spec fn gl_uniform_type(t: UniformType) -> u32 {
    match t {
        UniformType::Int => gl::INT,
        UniformType::UInt => gl::UNSIGNED_INT,
        UniformType::Float => gl::FLOAT,
        UniformType::Bool => gl::BOOL,
        UniformType::IVec2 => gl::INT_VEC2,
        UniformType::IVec3 => gl::INT_VEC3,
        UniformType::IVec4 => gl::INT_VEC4,
        UniformType::UIVec2 => gl::UNSIGNED_INT_VEC2,
        UniformType::UIVec3 => gl::UNSIGNED_INT_VEC3,
        UniformType::UIVec4 => gl::UNSIGNED_INT_VEC4,
        UniformType::Vec2 => gl::FLOAT_VEC2,
        UniformType::Vec3 => gl::FLOAT_VEC3,
        UniformType::Vec4 => gl::FLOAT_VEC4,
        UniformType::BVec2 => gl::BOOL_VEC2,
        UniformType::BVec3 => gl::BOOL_VEC3,
        UniformType::BVec4 => gl::BOOL_VEC4,
        UniformType::M22 => gl::FLOAT_MAT2,
        UniformType::M33 => gl::FLOAT_MAT3,
        UniformType::M44 => gl::FLOAT_MAT4,
        UniformType::Sampler2D => gl::SAMPLER_2D,
        UniformType::Sampler3D => gl::SAMPLER_3D,
        UniformType::SamplerCube => gl::SAMPLER_CUBE,
        UniformType::Other(raw) => raw,
    }
}

impl UniformType {
    /// Decodes the driver's code for a uniform type; a code that names no
    /// listed type is kept as `Other`.
    pub fn from_gl(raw: u32) -> (r: UniformType)
        ensures
            gl_uniform_type(r) == raw,
            r is Other ==> forall|t: UniformType| !(t is Other) ==> gl_uniform_type(t) != raw,
    {
        if raw == gl::INT {
            UniformType::Int
        } else if raw == gl::UNSIGNED_INT {
            UniformType::UInt
        } else if raw == gl::FLOAT {
            UniformType::Float
        } else if raw == gl::BOOL {
            UniformType::Bool
        } else if raw == gl::INT_VEC2 {
            UniformType::IVec2
        } else if raw == gl::INT_VEC3 {
            UniformType::IVec3
        } else if raw == gl::INT_VEC4 {
            UniformType::IVec4
        } else if raw == gl::UNSIGNED_INT_VEC2 {
            UniformType::UIVec2
        } else if raw == gl::UNSIGNED_INT_VEC3 {
            UniformType::UIVec3
        } else if raw == gl::UNSIGNED_INT_VEC4 {
            UniformType::UIVec4
        } else if raw == gl::FLOAT_VEC2 {
            UniformType::Vec2
        } else if raw == gl::FLOAT_VEC3 {
            UniformType::Vec3
        } else if raw == gl::FLOAT_VEC4 {
            UniformType::Vec4
        } else if raw == gl::BOOL_VEC2 {
            UniformType::BVec2
        } else if raw == gl::BOOL_VEC3 {
            UniformType::BVec3
        } else if raw == gl::BOOL_VEC4 {
            UniformType::BVec4
        } else if raw == gl::FLOAT_MAT2 {
            UniformType::M22
        } else if raw == gl::FLOAT_MAT3 {
            UniformType::M33
        } else if raw == gl::FLOAT_MAT4 {
            UniformType::M44
        } else if raw == gl::SAMPLER_2D {
            UniformType::Sampler2D
        } else if raw == gl::SAMPLER_3D {
            UniformType::Sampler3D
        } else if raw == gl::SAMPLER_CUBE {
            UniformType::SamplerCube
        } else {
            UniformType::Other(raw)
        }
    }
}

/// An active uniform of a linked program, as the driver lists it.
#[derive(Clone, Debug)]
pub struct ActiveUniform {
    pub name: String,
    /// Key under which the caller keeps the driver's location; negative
    /// when the driver gave none.
    pub location: i32,
    pub ty: UniformType,
}

/// Why a uniform name gave no usable handle. Not fatal: a shader variant
/// may simply not use the uniform.
#[derive(Clone, Debug, PartialEq, Eq)]
pub enum UniformWarning {
    /// The program has no active uniform of that name.
    Inactive(String),
    /// Name, requested type, and the type that the program declares.
    TypeMismatch(String, UniformType, UniformType),
}

/// The value written to a uniform, in the driver's terms.
#[derive(Clone, Copy, Debug, PartialEq, Eq, Structural)]
pub enum UniformData {
    Int(i32),
    UInt(u32),
    /// Booleans are written as integers.
    Bool(i32),
    IVec2(i32, i32),
    IVec3(i32, i32, i32),
    IVec4(i32, i32, i32, i32),
    UIVec2(u32, u32),
    UIVec3(u32, u32, u32),
    UIVec4(u32, u32, u32, u32),
    /// A sampler is written the index of a texture unit.
    Sampler(u32),
}

/// A write to the location of a uniform.
#[derive(Clone, Copy, Debug, PartialEq, Eq, Structural)]
pub struct UniformUpload {
    pub location: i32,
    pub data: UniformData,
}

/// Values that can be written to a uniform.
pub trait Uniformable: Sized {
    /// The uniform type that values of this type are written to.
    spec fn uniform_type() -> UniformType;

    /// What a value is written as.
    spec fn data(self) -> UniformData;

    fn ty() -> (r: UniformType)
        ensures
            r == Self::uniform_type(),
    ;

    fn encode(self) -> (r: UniformData)
        ensures
            r == self.data(),
    ;
}

impl Uniformable for i32 {
    open spec fn uniform_type() -> UniformType {
        UniformType::Int
    }

    open spec fn data(self) -> UniformData {
        UniformData::Int(self)
    }

    fn ty() -> (r: UniformType) {
        UniformType::Int
    }

    fn encode(self) -> (r: UniformData) {
        UniformData::Int(self)
    }
}

impl Uniformable for u32 {
    open spec fn uniform_type() -> UniformType {
        UniformType::UInt
    }

    open spec fn data(self) -> UniformData {
        UniformData::UInt(self)
    }

    fn ty() -> (r: UniformType) {
        UniformType::UInt
    }

    fn encode(self) -> (r: UniformData) {
        UniformData::UInt(self)
    }
}

impl Uniformable for bool {
    open spec fn uniform_type() -> UniformType {
        UniformType::Bool
    }

    open spec fn data(self) -> UniformData {
        UniformData::Bool(if self { 1 } else { 0 })
    }

    fn ty() -> (r: UniformType) {
        UniformType::Bool
    }

    fn encode(self) -> (r: UniformData) {
        UniformData::Bool(if self { 1 } else { 0 })
    }
}

impl Uniformable for [i32; 2] {
    open spec fn uniform_type() -> UniformType {
        UniformType::IVec2
    }

    open spec fn data(self) -> UniformData {
        UniformData::IVec2(self@[0], self@[1])
    }

    fn ty() -> (r: UniformType) {
        UniformType::IVec2
    }

    fn encode(self) -> (r: UniformData) {
        UniformData::IVec2(self[0], self[1])
    }
}

impl Uniformable for [i32; 3] {
    open spec fn uniform_type() -> UniformType {
        UniformType::IVec3
    }

    open spec fn data(self) -> UniformData {
        UniformData::IVec3(self@[0], self@[1], self@[2])
    }

    fn ty() -> (r: UniformType) {
        UniformType::IVec3
    }

    fn encode(self) -> (r: UniformData) {
        UniformData::IVec3(self[0], self[1], self[2])
    }
}

impl Uniformable for [i32; 4] {
    open spec fn uniform_type() -> UniformType {
        UniformType::IVec4
    }

    open spec fn data(self) -> UniformData {
        UniformData::IVec4(self@[0], self@[1], self@[2], self@[3])
    }

    fn ty() -> (r: UniformType) {
        UniformType::IVec4
    }

    fn encode(self) -> (r: UniformData) {
        UniformData::IVec4(self[0], self[1], self[2], self[3])
    }
}

impl Uniformable for [u32; 2] {
    open spec fn uniform_type() -> UniformType {
        UniformType::UIVec2
    }

    open spec fn data(self) -> UniformData {
        UniformData::UIVec2(self@[0], self@[1])
    }

    fn ty() -> (r: UniformType) {
        UniformType::UIVec2
    }

    fn encode(self) -> (r: UniformData) {
        UniformData::UIVec2(self[0], self[1])
    }
}

impl Uniformable for [u32; 3] {
    open spec fn uniform_type() -> UniformType {
        UniformType::UIVec3
    }

    open spec fn data(self) -> UniformData {
        UniformData::UIVec3(self@[0], self@[1], self@[2])
    }

    fn ty() -> (r: UniformType) {
        UniformType::UIVec3
    }

    fn encode(self) -> (r: UniformData) {
        UniformData::UIVec3(self[0], self[1], self[2])
    }
}

impl Uniformable for [u32; 4] {
    open spec fn uniform_type() -> UniformType {
        UniformType::UIVec4
    }

    open spec fn data(self) -> UniformData {
        UniformData::UIVec4(self@[0], self@[1], self@[2], self@[3])
    }

    fn ty() -> (r: UniformType) {
        UniformType::UIVec4
    }

    fn encode(self) -> (r: UniformData) {
        UniformData::UIVec4(self[0], self[1], self[2], self[3])
    }
}

/// A 2D texture sampler, set to the index of the texture unit to read.
#[derive(Clone, Copy, Debug, PartialEq, Eq, Structural)]
pub struct Sampler2D {
    pub unit: u32,
}

/// A 3D texture sampler, set to the index of the texture unit to read.
#[derive(Clone, Copy, Debug, PartialEq, Eq, Structural)]
pub struct Sampler3D {
    pub unit: u32,
}

/// A cube map sampler, set to the index of the texture unit to read.
#[derive(Clone, Copy, Debug, PartialEq, Eq, Structural)]
pub struct SamplerCube {
    pub unit: u32,
}

impl Uniformable for Sampler2D {
    open spec fn uniform_type() -> UniformType {
        UniformType::Sampler2D
    }

    open spec fn data(self) -> UniformData {
        UniformData::Sampler(self.unit)
    }

    fn ty() -> (r: UniformType) {
        UniformType::Sampler2D
    }

    fn encode(self) -> (r: UniformData) {
        UniformData::Sampler(self.unit)
    }
}

impl Uniformable for Sampler3D {
    open spec fn uniform_type() -> UniformType {
        UniformType::Sampler3D
    }

    open spec fn data(self) -> UniformData {
        UniformData::Sampler(self.unit)
    }

    fn ty() -> (r: UniformType) {
        UniformType::Sampler3D
    }

    fn encode(self) -> (r: UniformData) {
        UniformData::Sampler(self.unit)
    }
}

impl Uniformable for SamplerCube {
    open spec fn uniform_type() -> UniformType {
        UniformType::SamplerCube
    }

    open spec fn data(self) -> UniformData {
        UniformData::Sampler(self.unit)
    }

    fn ty() -> (r: UniformType) {
        UniformType::SamplerCube
    }

    fn encode(self) -> (r: UniformData) {
        UniformData::Sampler(self.unit)
    }
}

/// Location that no uniform has: writes through it are dropped.
pub const UNBOUND_LOCATION: i32 = -1;

/// What writing a value through a handle of a location gives: nothing for
/// the unbound location, else the value at that location.
pub open spec fn write_outcome<T: Uniformable>(location: i32, value: T) -> Option<UniformUpload> {
    if location < 0 {
        None
    } else {
        Some(UniformUpload { location, data: value.data() })
    }
}

/// A typed handle on a uniform of one program. It owns nothing: it is a key
/// into the program it was resolved against.
#[derive(Debug)]
pub struct Uniform<T> {
    location: i32,
    _t: PhantomData<T>,
}

impl<T> View for Uniform<T> {
    /// The location.
    type V = i32;

    closed spec fn view(&self) -> i32 {
        self.location
    }
}

impl<T: Uniformable> Uniform<T> {
    /// The location of this handle.
    pub fn location(&self) -> (r: i32)
        ensures
            r == self@,
    {
        self.location
    }

    /// Whether writes through this handle reach a uniform.
    pub fn is_bound(&self) -> (r: bool)
        ensures
            r == (self@ >= 0),
    {
        self.location >= 0
    }

    /// The upload that writes `value` through this handle; nothing for an
    /// unbound handle.
    pub fn write(&self, value: T) -> (r: Option<UniformUpload>)
        ensures
            r == write_outcome(self@, value),
    {
        if self.location < 0 {
            None
        } else {
            Some(UniformUpload { location: self.location, data: value.encode() })
        }
    }
}

/// Index of the first uniform from `from` on that has the name, or -1.
pub open spec fn first_named(us: Seq<ActiveUniform>, name: Seq<char>, from: int) -> int
    decreases us.len() - from,
{
    if from < 0 || from >= us.len() {
        -1
    } else if us[from].name@ == name {
        from
    } else {
        first_named(us, name, from + 1)
    }
}

/// How a name and a type resolve against the active uniforms of a program.
pub enum Resolution {
    /// The location of the uniform.
    Found(i32),
    Inactive,
    /// The type that the program declares.
    TypeMismatch(UniformType),
}

/// Resolves by the first active uniform of that name; one that the driver
/// gave no location is inactive.
pub open spec fn resolve(us: Seq<ActiveUniform>, name: Seq<char>, ty: UniformType) -> Resolution {
    let i = first_named(us, name, 0);
    if i < 0 || us[i].location < 0 {
        Resolution::Inactive
    } else if us[i].ty != ty {
        Resolution::TypeMismatch(us[i].ty)
    } else {
        Resolution::Found(us[i].location)
    }
}

proof fn lemma_first_named_bounds(us: Seq<ActiveUniform>, name: Seq<char>, from: int)
    requires
        0 <= from,
    ensures
        -1 <= first_named(us, name, from) < us.len(),
        first_named(us, name, from) >= 0 ==> first_named(us, name, from) >= from,
        first_named(us, name, from) >= 0 ==> us[first_named(us, name, from)].name@ == name,
    decreases us.len() - from,
{
    if from < us.len() && us[from].name@ != name {
        lemma_first_named_bounds(us, name, from + 1);
    }
}

/// Resolves uniform names of one linked program.
#[derive(Debug)]
pub struct UniformBuilder {
    program: u32,
    uniforms: Vec<ActiveUniform>,
}

impl UniformBuilder {
    /// The program.
    pub closed spec fn program_spec(&self) -> u32 {
        self.program
    }

    /// The active uniforms of the program.
    pub closed spec fn uniforms(&self) -> Seq<ActiveUniform> {
        self.uniforms@
    }

    /// A session on a program with the active uniforms that the driver listed.
    pub fn new(program: u32, uniforms: Vec<ActiveUniform>) -> (r: UniformBuilder)
        ensures
            r.program_spec() == program,
            r.uniforms() == uniforms@,
    {
        UniformBuilder { program, uniforms }
    }

    /// The program.
    pub fn program(&self) -> (r: u32)
        ensures
            r == self.program_spec(),
    {
        self.program
    }

    fn find(&self, name: &str) -> (r: Option<usize>)
        ensures
            match r {
                Some(i) => i < self.uniforms().len() && first_named(self.uniforms(), name@, 0) == i,
                None => first_named(self.uniforms(), name@, 0) == -1,
            },
    {
        let key = String::from_str(name);
        let mut i: usize = 0;
        while i < self.uniforms.len()
            invariant
                i <= self.uniforms@.len(),
                key@ == name@,
                first_named(self.uniforms@, name@, 0) == first_named(self.uniforms@, name@, i as int),
            decreases self.uniforms@.len() - i,
        {
            if self.uniforms[i].name == key {
                return Some(i);
            }
            i = i + 1;
        }
        None
    }

    /// Resolves a uniform name to a handle of type `T`. A name that the
    /// program does not use, or declares with another type, gives a warning.
    /// The session does not change, so asking again gives the same answer.
    pub fn ask<T: Uniformable>(&mut self, name: &str) -> (r: Result<Uniform<T>, UniformWarning>)
        ensures
            *final(self) == *old(self),
            match resolve(old(self).uniforms(), name@, T::uniform_type()) {
                Resolution::Found(loc) => r matches Ok(u) && u@ == loc,
                Resolution::Inactive => r matches Err(UniformWarning::Inactive(n)) && n@ == name@,
                Resolution::TypeMismatch(found) => r matches Err(
                    UniformWarning::TypeMismatch(n, expected, f),
                ) && n@ == name@ && expected == T::uniform_type() && f == found,
            },
    {
        proof {
            lemma_first_named_bounds(self.uniforms@, name@, 0);
        }
        match self.find(name) {
            None => Err(UniformWarning::Inactive(String::from_str(name))),
            Some(i) => {
                if self.uniforms[i].location < 0 {
                    return Err(UniformWarning::Inactive(String::from_str(name)));
                }
                let expected = T::ty();
                let found = self.uniforms[i].ty;
                if found != expected {
                    Err(UniformWarning::TypeMismatch(String::from_str(name), expected, found))
                } else {
                    Ok(Uniform { location: self.uniforms[i].location, _t: PhantomData })
                }
            },
        }
    }

    /// Resolves like [`UniformBuilder::ask`], but a warning gives an unbound
    /// handle, through which writes are dropped.
    pub fn ask_unbound<T: Uniformable>(&mut self, name: &str) -> (r: Uniform<T>)
        ensures
            *final(self) == *old(self),
            r@ == match resolve(old(self).uniforms(), name@, T::uniform_type()) {
                Resolution::Found(loc) => loc,
                _ => UNBOUND_LOCATION,
            },
    {
        match self.ask(name) {
            Ok(u) => u,
            Err(_) => Uniform { location: UNBOUND_LOCATION, _t: PhantomData },
        }
    }
}

/// Asking twice for the same name and type on one session gives equal
/// handles, and writing the same value through either gives the same upload.
pub proof fn lemma_ask_twice_equal<T: Uniformable>(
    us: Seq<ActiveUniform>,
    name: Seq<char>,
    first: i32,
    second: i32,
    value: T,
)
    requires
        resolve(us, name, T::uniform_type()) == Resolution::Found(first),
        resolve(us, name, T::uniform_type()) == Resolution::Found(second),
    ensures
        first == second,
        write_outcome(first, value) == write_outcome(second, value),
{
}

} // verus!
