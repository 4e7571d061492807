//! The platform the application runs on, read from a target triple.
//!
//! Reading a triple and finding the triple of the running build are left to
//! `tauri_utils::platform`; the two functions that call it are trusted, not
//! proved.

use vstd::prelude::*;
use tauri_utils::platform::Target;

verus! {

/// The platforms a target triple can name.
#[derive(Clone, Copy, Debug, PartialEq, Eq, Structural)]
pub enum Platform {
    MacOS,
    Windows,
    Linux,
    Android,
    Ios,
}

/// Why the triple of the running build could not be told.
#[derive(Clone, Copy, Debug, PartialEq, Eq, Structural)]
pub enum HostError {
    /// The processor architecture is not one with a known name.
    Architecture,
    /// The operating system is not one with a known name.
    Os,
    /// The environment (the C library flavour) is not one with a known name.
    Environment,
    /// Any other failure.
    Other,
}

/// Whether `needle` occurs somewhere in `text` as a contiguous run.
pub open spec fn occurs_in(needle: Seq<char>, text: Seq<char>) -> bool {
    exists|at: int|
        0 <= at && at + needle.len() <= text.len() && #[trigger] text.subrange(
            at,
            at + needle.len(),
        ) == needle
}

/// The platform a triple names: the first of the four marker words found in
/// it decides, in this order, and a triple with none of them counts as Linux.
pub open spec fn platform_of(triple: Seq<char>) -> Platform {
    if occurs_in("darwin"@, triple) {
        Platform::MacOS
    } else if occurs_in("windows"@, triple) {
        Platform::Windows
    } else if occurs_in("android"@, triple) {
        Platform::Android
    } else if occurs_in("ios"@, triple) {
        Platform::Ios
    } else {
        Platform::Linux
    }
}

/// Calls `tauri_utils::platform::Target::from_triple` and renames the variant
/// it returns. Trusted: that function tests the triple for the substrings
/// "darwin", "windows", "android" and "ios", in this order, answers with the
/// platform of the first one present, and with Linux when none is.
#[verifier::external_body]
fn target_of(triple: &str) -> (platform: Platform)
    ensures
        platform == platform_of(triple@),
{
    match Target::from_triple(triple) {
        Target::MacOS => Platform::MacOS,
        Target::Windows => Platform::Windows,
        Target::Linux => Platform::Linux,
        Target::Android => Platform::Android,
        Target::Ios => Platform::Ios,
        _ => Platform::Linux,
    }
}

/// The architecture names a host triple can begin with.
pub open spec fn is_host_arch(arch: Seq<char>) -> bool {
    ||| arch == "i686"@
    ||| arch == "x86_64"@
    ||| arch == "armv7"@
    ||| arch == "aarch64"@
    ||| arch == "riscv64"@
}

/// The system names a host triple can end with: vendor and operating
/// system, and behind Linux and Windows the C library flavour.
pub open spec fn is_host_system(system: Seq<char>) -> bool {
    ||| system == "apple-darwin"@
    ||| system == "unknown-freebsd"@
    ||| system == "unknown-linux-gnu"@
    ||| system == "unknown-linux-musl"@
    ||| system == "unknown-linux-msvc"@
    ||| system == "pc-windows-gnu"@
    ||| system == "pc-windows-musl"@
    ||| system == "pc-windows-msvc"@
}

/// An architecture and a system joined by a hyphen.
pub open spec fn host_triple_text(arch: Seq<char>, system: Seq<char>) -> Seq<char> {
    arch + "-"@ + system
}

/// Whether `triple` is one that the lookup of the running build can give.
pub open spec fn is_host_triple(triple: Seq<char>) -> bool {
    exists|arch: Seq<char>, system: Seq<char>|
        is_host_arch(arch) && is_host_system(system) && triple == #[trigger] host_triple_text(
            arch,
            system,
        )
}

/// Whether `second` stands directly behind `first` somewhere in `text`.
pub open spec fn adjacent(text: Seq<char>, first: char, second: char) -> bool {
    exists|at: int|
        0 <= at && at + 1 < text.len() && #[trigger] text[at] == first && text[at + 1] == second
}

/// Calls `tauri_utils::platform::target_triple` and renames its error.
/// Trusted. Which answer comes depends on the machine the program was built
/// for; claimed is only what that function can answer at all. A triple it
/// returns is one of its five architecture names, a hyphen, and one of its
/// system names: "apple-darwin", "unknown-freebsd", or "unknown-linux" or
/// "pc-windows" followed by a hyphen and "gnu", "musl" or "msvc". The errors
/// it returns are the three for an unknown architecture, operating system
/// or environment.
#[verifier::external_body]
fn host_triple() -> (triple: Result<String, HostError>)
    ensures
        triple matches Ok(text) ==> is_host_triple(text@),
        triple matches Err(error) ==> error != HostError::Other,
{
    match tauri_utils::platform::target_triple() {
        Ok(triple) => Ok(triple),
        Err(tauri_utils::Error::Architecture) => Err(HostError::Architecture),
        Err(tauri_utils::Error::Os) => Err(HostError::Os),
        Err(tauri_utils::Error::Environment) => Err(HostError::Environment),
        Err(_) => Err(HostError::Other),
    }
}

impl Platform {
    /// The platform that a target triple names.
    pub fn from_triple(triple: &str) -> (platform: Platform)
        ensures
            platform == platform_of(triple@),
    {
        target_of(triple)
    }

    /// The platform of a triple that was looked up, or the error of the
    /// lookup passed on unchanged.
    pub fn from_lookup(lookup: Result<String, HostError>) -> (platform: Result<Platform, HostError>)
        ensures
            platform == match lookup {
                Ok(triple) => Ok(platform_of(triple@)),
                Err(error) => Err(error),
            },
    {
        match lookup {
            Ok(triple) => Ok(target_of(triple.as_str())),
            Err(error) => Err(error),
        }
    }

    /// The platform this program was built for. Which one that is, and
    /// whether it can be told at all, is up to the machine; but the lookup
    /// knows desktop systems only, so the platform found is MacOS, Windows
    /// or Linux, and a failure is one of the three the lookup has.
    pub fn of_host() -> (platform: Result<Platform, HostError>)
        ensures
            platform matches Ok(found) ==> found == Platform::MacOS || found == Platform::Windows
                || found == Platform::Linux,
            platform matches Err(error) ==> error == HostError::Architecture || error
                == HostError::Os || error == HostError::Environment,
    {
        let lookup = host_triple();
        proof {
            if lookup is Ok {
                host_triples_name_desktops(lookup->Ok_0@);
            }
        }
        Platform::from_lookup(lookup)
    }

    /// Whether the keep-awake process exists on this platform.
    pub fn keeps_awake(self) -> (capable: bool)
        ensures
            capable == (self == Platform::MacOS),
    {
        match self {
            Platform::MacOS => true,
            _ => false,
        }
    }
}

/// Joining two texts makes no new neighbours but the two at the seam.
proof fn adjacent_in_joined(left: Seq<char>, right: Seq<char>, first: char, second: char)
    requires
        !adjacent(left, first, second),
        !adjacent(right, first, second),
        left.len() > 0 ==> left.last() != first,
    ensures
        !adjacent(left + right, first, second),
{
    let joined = left + right;
    assert forall|at: int| 0 <= at && at + 1 < joined.len() implies !(#[trigger] joined[at] == first
        && joined[at + 1] == second) by {
        if at + 1 < left.len() {
            assert(joined[at] == left[at] && joined[at + 1] == left[at + 1]);
        } else if at >= left.len() {
            assert(joined[at] == right[at - left.len()]);
            assert(joined[at + 1] == right[at - left.len() + 1]);
        } else {
            assert(joined[at] == left.last());
        }
    }
}

/// A text in which `needle` occurs holds every two neighbours of `needle`.
proof fn adjacent_in_occurrence(needle: Seq<char>, text: Seq<char>, inside: int)
    requires
        occurs_in(needle, text),
        0 <= inside,
        inside + 1 < needle.len(),
    ensures
        adjacent(text, needle[inside], needle[inside + 1]),
{
    let at = choose|at: int|
        0 <= at && at + needle.len() <= text.len() && #[trigger] text.subrange(
            at,
            at + needle.len(),
        ) == needle;
    let found = text.subrange(at, at + needle.len());
    assert(found[inside] == text[at + inside]);
    assert(found[inside + 1] == text[at + inside + 1]);
    assert(text[at + inside] == needle[inside] && text[at + inside + 1] == needle[inside + 1]);
}

/// No architecture name holds "io" or "dr", and none ends in 'i' or 'd'.
proof fn arch_names_are_plain(arch: Seq<char>)
    requires
        is_host_arch(arch),
    ensures
        !adjacent(arch, 'i', 'o'),
        !adjacent(arch, 'd', 'r'),
        arch.len() > 0,
        arch.last() != 'i',
        arch.last() != 'd',
{
    reveal_strlit("i686");
    reveal_strlit("x86_64");
    reveal_strlit("armv7");
    reveal_strlit("aarch64");
    reveal_strlit("riscv64");
}

/// No system name holds "io" or "dr".
proof fn system_names_are_plain(system: Seq<char>)
    requires
        is_host_system(system),
    ensures
        !adjacent(system, 'i', 'o'),
        !adjacent(system, 'd', 'r'),
{
    reveal_strlit("apple-darwin");
    reveal_strlit("unknown-freebsd");
    reveal_strlit("unknown-linux-gnu");
    reveal_strlit("unknown-linux-musl");
    reveal_strlit("unknown-linux-msvc");
    reveal_strlit("pc-windows-gnu");
    reveal_strlit("pc-windows-musl");
    reveal_strlit("pc-windows-msvc");
}

/// A triple that the lookup of the running build can give names neither
/// Android nor iOS: the platform read from it is MacOS, Windows or Linux.
pub proof fn host_triples_name_desktops(triple: Seq<char>)
    requires
        is_host_triple(triple),
    ensures
        !occurs_in("android"@, triple),
        !occurs_in("ios"@, triple),
        platform_of(triple) == Platform::MacOS || platform_of(triple) == Platform::Windows
            || platform_of(triple) == Platform::Linux,
{
    let (arch, system) = choose|arch: Seq<char>, system: Seq<char>|
        is_host_arch(arch) && is_host_system(system) && triple == #[trigger] host_triple_text(
            arch,
            system,
        );
    reveal_strlit("-");
    reveal_strlit("android");
    reveal_strlit("ios");
    arch_names_are_plain(arch);
    system_names_are_plain(system);
    let head = arch + "-"@;
    assert(head.last() == '-');
    adjacent_in_joined(arch, "-"@, 'i', 'o');
    adjacent_in_joined(arch, "-"@, 'd', 'r');
    adjacent_in_joined(head, system, 'i', 'o');
    adjacent_in_joined(head, system, 'd', 'r');
    if occurs_in("ios"@, triple) {
        adjacent_in_occurrence("ios"@, triple, 0);
    }
    if occurs_in("android"@, triple) {
        adjacent_in_occurrence("android"@, triple, 2);
    }
}

} // verus!
