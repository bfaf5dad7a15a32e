use vstd::prelude::*;
use crate::errors::CoreError;
use crate::strutil::concat3;

verus! {

/// The OS-ABI identification byte of the parsed ELF header, or nothing
/// when the bytes are no well-formed ELF image.  The value depends on the
/// bytes alone.
pub uninterp spec fn elf_osabi_of(b: Seq<u8>) -> Option<u8>;

/// Relies on goblin::elf::Elf::parse: parsing is a function of the bytes
/// alone, and on success `header.e_ident[EI_OSABI]` is the OS-ABI byte of
/// the image.
#[verifier::external_body]
fn elf_osabi(buffer: &[u8]) -> (r: Option<u8>)
    ensures
        r == elf_osabi_of(buffer@),
{
    match goblin::elf::Elf::parse(buffer) {
        Ok(elf) => Some(elf.header.e_ident[goblin::elf::header::EI_OSABI]),
        Err(_) => None,
    }
}

/// HermitCore images carry this value in the OS-ABI byte of their ELF
/// identification.
pub const HERMIT_OSABI: u8 = 0xFF;

/// The decision taken on an OS-ABI probe: only a well-formed ELF whose
/// OS-ABI byte is the HermitCore value counts as a Hermit image; a file
/// that does not parse as ELF (a script, say) does not.
pub fn osabi_is_hermit(osabi: Option<u8>) -> (r: bool)
    ensures
        r == (osabi == Some(HERMIT_OSABI)),
{
    match osabi {
        Some(b) => b == 0xFF,
        None => false,
    }
}

/// Classifies an entrypoint image: true exactly when the bytes parse as an
/// ELF whose OS-ABI identification byte is the HermitCore value.
pub fn is_hermit_app(buffer: &[u8]) -> (r: bool)
    ensures
        r == (elf_osabi_of(buffer@) == Some(HERMIT_OSABI)),
{
    osabi_is_hermit(elf_osabi(buffer))
}

/// Bringing a new Hermit environment into existence is left to the
/// surrounding tooling; the core only records where it should live.
pub fn create_environment(_path: &str) {
}

/// Where the Hermit environment lives: the configured path when one was
/// given, otherwise `hermit` under the project directory.
pub fn get_environment_path(project_dir: &str, hermit_env_path: &Option<String>) -> (r: String)
    ensures
        hermit_env_path matches Some(p) ==> r@ == p@,
        hermit_env_path is None ==> r@ == project_dir@ + "/"@ + "hermit"@,
{
    match hermit_env_path {
        Some(s) => s.clone(),
        None => concat3(project_dir, "/", "hermit"),
    }
}

/// Decides what to do about the Hermit environment directory, given what a
/// probe of its path found: a missing path is to be created, an existing
/// directory is used as it stands, and an existing non-directory is
/// refused.  Returns the environment path and whether it must be created.
pub fn prepare_environment(
    project_dir: &str,
    hermit_env_path: &Option<String>,
    exists: bool,
    is_dir: bool,
) -> (r: Result<(String, bool), CoreError>)
    ensures
        (exists && !is_dir) <==> r is Err,
        r matches Err(e) ==> e is NotADirectory,
        r matches Ok(p) ==> ({
            &&& hermit_env_path matches Some(q) ==> p.0@ == q@
            &&& hermit_env_path is None ==> p.0@ == project_dir@ + "/"@ + "hermit"@
            &&& p.1 == !exists
        }),
{
    let path = get_environment_path(project_dir, hermit_env_path);
    if exists && !is_dir {
        Err(CoreError::NotADirectory)
    } else {
        Ok((path, !exists))
    }
}

} // verus!
