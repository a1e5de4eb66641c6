//! What the cache holds of bevy: shaders, their handles, and the hash table
//! that keeps the entries.
//!
//! Everything that touches bevy is declared here and believed as stated; the
//! cache's own logic is proved from these contracts alone.
//!
//! The library never makes a handle and never copies one. Bevy counts strong
//! handles through a channel to its asset server, and making or copying a
//! strong handle stops the program once that server is gone; nothing shows
//! whether it is. So the library asks for a shader by handing out what is to
//! be created, takes the handle that was made by value, and hands handles out
//! by reference. Asking the backend and copying handles is left to the
//! application.

use bevy::asset::Handle;
use bevy::render::render_resource::Shader;
use bevy::utils::HashMap;
use vstd::prelude::*;

verus! {

/// `bevy::render::render_resource::Shader`: shader source as the backend
/// keeps it before compiling. Opaque here.
#[verifier::external_type_specification]
#[verifier::external_body]
pub struct ExShader(Shader);

/// A handle to a shader asset, as bevy hands it out (`Handle<Shader>`).
///
/// Verus takes no type that is bound by a trait of bevy, so the handle is
/// held behind this struct. The library moves handles and lends them; it
/// looks into none.
#[verifier::external_body]
pub struct ShaderHandle {
    pub handle: Handle<Shader>,
}

/// The table of the cache: `bevy::utils::HashMap<String, Handle<Shader>>`,
/// with each handle held in its [`ShaderHandle`].
///
/// The map's own type cannot be declared to Verus (its allocator parameter
/// is private to hashbrown), so it is held behind this struct and reached
/// only through [`table_new`], [`table_get`] and [`table_insert`].
#[verifier::external_body]
pub struct HandleTable {
    table: HashMap<String, ShaderHandle>,
}

/// The entries of a table: the handle stored under each source text.
pub uninterp spec fn table_entries(table: HandleTable) -> Map<Seq<char>, ShaderHandle>;

/// The shader that `Shader::from_wgsl` builds from a source text.
pub uninterp spec fn wgsl_shader(source: Seq<char>) -> Shader;

/// `HashMap::default`: a table without entries.
#[verifier::external_body]
pub(crate) fn table_new() -> (table: HandleTable)
    ensures
        table_entries(table) =~= Map::empty(),
{
    HandleTable { table: HashMap::default() }
}

/// `HashMap::get` with a `&str` key: the handle stored under `source`, if
/// there is one. The table is not changed.
#[verifier::external_body]
pub(crate) fn table_get<'a>(table: &'a HandleTable, source: &str) -> (found: Option<&'a ShaderHandle>)
    ensures
        table_entries(*table).contains_key(source@) ==> found == Some(
            &table_entries(*table)[source@],
        ),
        !table_entries(*table).contains_key(source@) ==> found.is_none(),
{
    table.table.get(source)
}

/// `HashMap::insert`: afterwards `handle` is stored under `source` and every
/// other entry is as before. Returns what was stored under `source` before,
/// if anything was.
#[verifier::external_body]
pub(crate) fn table_insert(
    table: &mut HandleTable,
    source: String,
    handle: ShaderHandle,
) -> (previous: Option<ShaderHandle>)
    ensures
        table_entries(*final(table)) == table_entries(*old(table)).insert(source@, handle),
        table_entries(*old(table)).contains_key(source@) ==> previous == Some(
            table_entries(*old(table))[source@],
        ),
        !table_entries(*old(table)).contains_key(source@) ==> previous.is_none(),
{
    table.table.insert(source, handle)
}

/// `Shader::from_wgsl`: a shader that keeps `source` as its WGSL text,
/// together with the import lines bevy finds in it. The result depends on
/// the text alone.
#[verifier::external_body]
pub(crate) fn wgsl(source: String) -> (shader: Shader)
    ensures
        shader == wgsl_shader(source@),
{
    Shader::from_wgsl(source)
}

} // verus!
