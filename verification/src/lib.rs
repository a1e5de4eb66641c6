//! Particle effects for the GPU, from their declaration to their shaders.
//!
//! An effect is declared as a composition of typed expressions and
//! modifiers. It compiles to the shader source of its three stages, a cache
//! says which of the sources the rendering backend has a shader for and
//! keeps the handles of those it makes, and a spawner decides in each tick
//! how many particles an instance emits. Properties are the values of an instance
//! that change at run time without changing any shader.
//!
//! Numbers are exact: values are decimal fractions with six places and time
//! is counted in microseconds, so that equal declarations give equal text
//! and a rate of emission holds over any number of ticks.

pub mod backend;
pub mod effect;
pub mod expr;
pub mod gradient;
pub mod modifier;
pub mod module;
pub mod properties;
pub mod shader_cache;
pub mod spawner;
pub mod value;

pub use backend::ShaderHandle;
pub use effect::{CompiledEffect, EffectAsset};
pub use expr::{BinaryOperator, Expr, ExprError, Term};
pub use gradient::{Gradient, GradientKey};
pub use modifier::{Modifier, ShaderFragment, Stage};
pub use module::{Module, Property};
pub use properties::EffectProperties;
pub use shader_cache::{CompileError, Lookup, ShaderCache};
pub use spawner::{SpawnMode, Spawner, SpawnerState};
pub use value::{Number, Value, ValueType};
