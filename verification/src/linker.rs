//! The linking stage: which linker to run, where it looks for libraries, and
//! the command line that turns an object file into an executable.

use vstd::prelude::*;
use crate::error::LinkError;
use crate::target::{
    architecture_name, environment_name, operating_system_name, triple_architecture,
    triple_environment, triple_operating_system,
};
use crate::text::{joined, same_text};

verus! {

/// The platform that the compiler itself runs on, and the prefix directory
/// that its environment supplies, if any.
#[derive(Clone, Debug, PartialEq, Eq)]
pub struct Host {
    pub arch: String,
    pub os: String,
    pub env: String,
    pub prefix: Option<String>,
}

/// A linker invocation: the program and its arguments, in order.
#[derive(Clone, Debug, PartialEq, Eq)]
pub struct LinkerCommand {
    pub program: String,
    pub args: Vec<String>,
}

/// The characters of each string of a list.
pub open spec fn texts(list: Seq<String>) -> Seq<Seq<char>> {
    Seq::new(list.len(), |i: int| list[i]@)
}

/// The linkers that are preferred to the C compiler driver, best first.
pub open spec fn preferred_linker(index: int) -> Seq<char> {
    if index == 0 {
        "mold"@
    } else if index == 1 {
        "ld.lld"@
    } else if index == 2 {
        "ld.gold"@
    } else if index == 3 {
        "ld"@
    } else if index == 4 {
        "clang"@
    } else {
        "gcc"@
    }
}

/// The linker chosen when `found[i]` says whether the preferred linker `i`
/// is installed, looking at the positions from `from` on: the first one
/// that is installed, and `cc` where none is.
pub open spec fn selected_from(found: Seq<bool>, from: int) -> Seq<char>
    decreases 6 - from,
{
    if from < 0 || from >= 6 || from >= found.len() {
        "cc"@
    } else if found[from] {
        preferred_linker(from)
    } else {
        selected_from(found, from + 1)
    }
}

/// The linker chosen among the preferred ones, or `cc`.
pub open spec fn selected(found: Seq<bool>) -> Seq<char> {
    selected_from(found, 0)
}

/// Whether library paths and the dynamic linker are known for the family of
/// platforms that the host belongs to.
pub open spec fn supported(host: Host) -> bool {
    host.os@ == "linux"@ || host.os@ == "android"@
}

/// The characters of an optional string.
pub open spec fn text_of(text: Option<String>) -> Option<Seq<char>> {
    match text {
        Some(t) => Some(t@),
        None => None,
    }
}

/// The value of an optional text, or a default.
pub open spec fn text_or(text: Option<Seq<char>>, default: Seq<char>) -> Seq<char> {
    match text {
        Some(t) => t,
        None => default,
    }
}

/// The path of the dynamic linker: a fixed path for the Android
/// environment; for an x86-64 target the 64-bit loader under the prefix;
/// for any other target the loader named after the target architecture,
/// under the prefix. A component that is not given is the host's.
pub open spec fn dynamic_linker(
    host: Host,
    prefix: Seq<char>,
    target_arch: Option<Seq<char>>,
    target_env: Option<Seq<char>>,
) -> Seq<char> {
    if text_or(target_env, host.env@) == "android"@ {
        "/system/lib/ld-android.so"@
    } else if text_or(target_arch, host.arch@) == "x86_64"@ {
        prefix + "/lib64/ld-linux-x86-64.so.2"@
    } else {
        prefix + "/lib/ld-linux-"@ + text_or(target_arch, host.arch@) + ".so.1"@
    }
}

/// The prefix directory in use: the explicit one, else the one that the
/// environment supplies, else `/usr`.
pub open spec fn prefix_in_use(host: Host, prefix_dir: Option<Seq<char>>) -> Seq<char> {
    text_or(prefix_dir, text_or(text_of(host.prefix), "/usr"@))
}

/// The name of the target as the three components joined by hyphens, each
/// defaulting to the host's.
pub open spec fn triple_name(
    host: Host,
    target_arch: Option<Seq<char>>,
    target_os: Option<Seq<char>>,
    target_env: Option<Seq<char>>,
) -> Seq<char> {
    text_or(target_arch, host.arch@) + "-"@ + text_or(target_os, host.os@) + "-"@ + text_or(
        target_env,
        host.env@,
    )
}

/// The arguments that tell the linker where to look for libraries and which
/// dynamic linker to record.
pub open spec fn library_dir(
    host: Host,
    prefix_dir: Option<Seq<char>>,
    target_arch: Option<Seq<char>>,
    target_os: Option<Seq<char>>,
    target_env: Option<Seq<char>>,
) -> Seq<Seq<char>> {
    let prefix = prefix_in_use(host, prefix_dir);
    let triple = triple_name(host, target_arch, target_os, target_env);
    seq![
        "-L"@ + prefix + "/lib"@,
        "-L"@ + prefix + "/lib/"@ + triple,
        "-L"@ + prefix + "/"@ + triple + "/lib"@,
        "--dynamic-linker"@,
        dynamic_linker(host, prefix, target_arch, target_env),
    ]
}

/// The arguments of the linker: the output, the library arguments, the C
/// library and the object file.
pub open spec fn linker_arguments(
    out_path: Seq<char>,
    libs: Seq<Seq<char>>,
    object: Seq<char>,
) -> Seq<Seq<char>> {
    seq!["-o"@, out_path] + libs + seq!["-lc"@, object]
}

/// Reports whether a program of this name can be found on the executable
/// search path, as `which::which` finds it. The answer depends on what is
/// installed, so nothing is promised of it.
#[verifier::external_body]
pub fn command_exists(cmd: &str) -> (found: bool) {
    which::which(cmd).is_ok()
}

/// The preferred linker at a position of the priority order.
pub fn preferred(index: usize) -> (name: &'static str)
    requires
        index < 6,
    ensures
        name@ == preferred_linker(index as int),
{
    if index == 0 {
        "mold"
    } else if index == 1 {
        "ld.lld"
    } else if index == 2 {
        "ld.gold"
    } else if index == 3 {
        "ld"
    } else if index == 4 {
        "clang"
    } else {
        "gcc"
    }
}

/// Chooses the linker, given for each preferred linker whether it is
/// installed: the first preferred one that is, and `cc` where none is.
pub fn select_linker(found: &Vec<bool>) -> (name: &'static str)
    ensures
        name@ == selected(found@),
{
    let mut i: usize = 0;
    while i < 6 && i < found.len()
        invariant
            i <= 6,
            selected(found@) == selected_from(found@, i as int),
        decreases 6 - i,
    {
        if found[i] {
            return preferred(i);
        }
        i += 1;
    }
    "cc"
}

/// Probes the preferred linkers in their priority order and chooses the
/// first that is installed, or `cc`.
pub fn get_default_linker() -> (name: &'static str)
    ensures
        exists|found: Seq<bool>| found.len() == 6 && name@ == selected(found),
{
    let mut found: Vec<bool> = Vec::new();
    let mut i: usize = 0;
    while i < 6
        invariant
            i <= 6,
            found@.len() == i,
        decreases 6 - i,
    {
        found.push(command_exists(preferred(i)));
        i += 1;
    }
    select_linker(&found)
}

/// Whether the host belongs to a family of platforms for which library
/// paths and the dynamic linker are known.
pub fn is_supported(host: &Host) -> (yes: bool)
    ensures
        yes == supported(*host),
{
    same_text(host.os.as_str(), "linux") || same_text(host.os.as_str(), "android")
}

fn take_or(text: Option<String>, default: &String) -> (r: String)
    ensures
        r@ == text_or(text_of(text), default@),
{
    match text {
        Some(t) => t,
        None => default.clone(),
    }
}

/// The path of the dynamic linker that executables for the target are to
/// use. On a host of an unsupported family it is not known.
pub fn get_dynamic_linker(
    host: &Host,
    prefix: String,
    target_arch: Option<String>,
    target_env: Option<String>,
) -> (r: Result<String, LinkError>)
    ensures
        supported(*host) ==> (r matches Ok(path) && path@ == dynamic_linker(
            *host,
            prefix@,
            text_of(target_arch),
            text_of(target_env),
        )),
        !supported(*host) ==> r == Err::<String, LinkError>(LinkError::NotImplemented),
{
    if !is_supported(host) {
        return Err(LinkError::NotImplemented);
    }
    let env = take_or(target_env, &host.env);
    if same_text(env.as_str(), "android") {
        return Ok(String::from_str("/system/lib/ld-android.so"));
    }
    let arch = take_or(target_arch, &host.arch);
    if same_text(arch.as_str(), "x86_64") {
        return Ok(joined(prefix.as_str(), "/lib64/ld-linux-x86-64.so.2"));
    }
    let mut path = joined(prefix.as_str(), "/lib/ld-linux-");
    path.append(arch.as_str());
    path.append(".so.1");
    Ok(path)
}

fn clone_text(text: &Option<String>) -> (r: Option<String>)
    ensures
        r == *text,
{
    match text {
        Some(t) => Some(t.clone()),
        None => None,
    }
}

/// The arguments that tell the linker where to look for libraries and which
/// dynamic linker to record. On a host of an unsupported family they are
/// not known.
pub fn get_library_dir(
    host: &Host,
    prefix_dir: Option<String>,
    target_arch: Option<String>,
    target_os: Option<String>,
    target_env: Option<String>,
) -> (r: Result<Vec<String>, LinkError>)
    ensures
        supported(*host) ==> (r matches Ok(dirs) && texts(dirs@) == library_dir(
            *host,
            text_of(prefix_dir),
            text_of(target_arch),
            text_of(target_os),
            text_of(target_env),
        )),
        !supported(*host) ==> r == Err::<Vec<String>, LinkError>(LinkError::NotImplemented),
{
    if !is_supported(host) {
        return Err(LinkError::NotImplemented);
    }
    let usr = String::from_str("/usr");
    let fallback = take_or(clone_text(&host.prefix), &usr);
    let prefix = take_or(prefix_dir, &fallback);
    let arch = take_or(clone_text(&target_arch), &host.arch);
    let os = take_or(target_os, &host.os);
    let env = take_or(clone_text(&target_env), &host.env);
    let mut triple = joined(arch.as_str(), "-");
    triple.append(os.as_str());
    triple.append("-");
    triple.append(env.as_str());

    let mut first = joined("-L", prefix.as_str());
    first.append("/lib");
    let mut second = joined("-L", prefix.as_str());
    second.append("/lib/");
    second.append(triple.as_str());
    let mut third = joined("-L", prefix.as_str());
    third.append("/");
    third.append(triple.as_str());
    third.append("/lib");
    let fourth = String::from_str("--dynamic-linker");
    let fifth = match get_dynamic_linker(host, prefix, target_arch, target_env) {
        Ok(path) => path,
        Err(e) => {
            return Err(e);
        },
    };
    let mut dirs: Vec<String> = Vec::new();
    dirs.push(first);
    dirs.push(second);
    dirs.push(third);
    dirs.push(fourth);
    dirs.push(fifth);
    assert(texts(dirs@) =~= library_dir(
        *host,
        text_of(prefix_dir),
        text_of(target_arch),
        text_of(target_os),
        text_of(target_env),
    ));
    Ok(dirs)
}

/// Puts the arguments of the linker in their order: `-o`, the output, the
/// library arguments, `-lc`, the object file.
pub fn get_linker_arguments(out_path: &str, libs: Vec<String>, object: &str) -> (args: Vec<String>)
    ensures
        texts(args@) == linker_arguments(out_path@, texts(libs@), object@),
{
    let mut args: Vec<String> = Vec::new();
    args.push(String::from_str("-o"));
    args.push(String::from_str(out_path));
    let mut i: usize = 0;
    while i < libs.len()
        invariant
            i <= libs.len(),
            args@.len() == 2 + i,
            args@[0]@ == "-o"@,
            args@[1]@ == out_path@,
            forall|j: int| 0 <= j < i ==> args@[2 + j]@ == libs@[j]@,
        decreases libs.len() - i,
    {
        args.push(libs[i].clone());
        i += 1;
    }
    args.push(String::from_str("-lc"));
    args.push(String::from_str(object));
    assert(texts(args@) =~= linker_arguments(out_path@, texts(libs@), object@));
    args
}

/// The command that links `object` into `out_path` for a target with the
/// given components, run with `linker`.
pub fn get_linker_command(
    host: &Host,
    out_path: &str,
    linker: String,
    object: &str,
    target_arch: String,
    target_os: String,
    target_env: String,
) -> (r: Result<LinkerCommand, LinkError>)
    ensures
        supported(*host) ==> (r matches Ok(command) && command.program@ == linker@ && texts(
            command.args@,
        ) == linker_arguments(
            out_path@,
            library_dir(*host, None, Some(target_arch@), Some(target_os@), Some(target_env@)),
            object@,
        )),
        !supported(*host) ==> r == Err::<LinkerCommand, LinkError>(LinkError::NotImplemented),
{
    let libs = match get_library_dir(
        host,
        None,
        Some(target_arch),
        Some(target_os),
        Some(target_env),
    ) {
        Ok(libs) => libs,
        Err(e) => {
            return Err(e);
        },
    };
    let args = get_linker_arguments(out_path, libs, object);
    Ok(LinkerCommand { program: linker, args })
}

/// The command that links `object` into `out_path` for the target `triple`.
/// The linker is the explicit one, where one is given, and the default one
/// otherwise. The components of the target are the names that the triple
/// gives to its architecture, operating system and environment.
pub fn link_command(
    host: &Host,
    out_path: &str,
    linker: Option<String>,
    object: &str,
    triple: &target_lexicon::Triple,
) -> (r: Result<LinkerCommand, LinkError>)
    ensures
        supported(*host) ==> (r matches Ok(command) && {
            &&& linker matches Some(explicit) ==> command.program@ == explicit@
            &&& linker is None ==> exists|found: Seq<bool>|
                found.len() == 6 && command.program@ == selected(found)
            &&& texts(command.args@) == linker_arguments(
                out_path@,
                library_dir(
                    *host,
                    None,
                    Some(triple_architecture(*triple)),
                    Some(triple_operating_system(*triple)),
                    Some(triple_environment(*triple)),
                ),
                object@,
            )
        }),
        !supported(*host) ==> r == Err::<LinkerCommand, LinkError>(LinkError::NotImplemented),
{
    let program = match linker {
        Some(explicit) => explicit,
        None => String::from_str(get_default_linker()),
    };
    let arch = architecture_name(triple);
    let os = operating_system_name(triple);
    let env = environment_name(triple);
    get_linker_command(host, out_path, program, object, arch, os, env)
}

/// Whether the linker did its work, given the exit code that it ended
/// with, if it ended with one: it did where the code is 0, and failed
/// otherwise.
pub fn linker_outcome(exit_code: Option<i32>) -> (r: Result<(), LinkError>)
    ensures
        exit_code == Some(0i32) ==> r is Ok,
        exit_code != Some(0i32) ==> r == Err::<(), LinkError>(LinkError::LinkerFailed(exit_code)),
{
    match exit_code {
        Some(0) => Ok(()),
        _ => Err(LinkError::LinkerFailed(exit_code)),
    }
}

/// Outside the Android environment the dynamic linker lies under the
/// prefix: its path is the prefix followed by a path that starts with `/`.
pub proof fn lemma_dynamic_linker_is_under_prefix(
    host: Host,
    prefix: Seq<char>,
    target_arch: Option<Seq<char>>,
    target_env: Option<Seq<char>>,
)
    requires
        text_or(target_env, host.env@) != "android"@,
    ensures
        ({
            let path = dynamic_linker(host, prefix, target_arch, target_env);
            &&& path.len() > prefix.len()
            &&& path.subrange(0, prefix.len() as int) == prefix
            &&& path[prefix.len() as int] == '/'
        }),
{
    reveal_strlit("/lib64/ld-linux-x86-64.so.2");
    reveal_strlit("/lib/ld-linux-");
    let path = dynamic_linker(host, prefix, target_arch, target_env);
    assert(path.subrange(0, prefix.len() as int) =~= prefix);
}

/// Outside the Android environment the dynamic linker follows the target
/// architecture: two different architectures give two different paths
/// under one prefix.
pub proof fn lemma_dynamic_linker_follows_architecture(
    host: Host,
    prefix: Seq<char>,
    first: Seq<char>,
    second: Seq<char>,
    target_env: Option<Seq<char>>,
)
    requires
        text_or(target_env, host.env@) != "android"@,
        first != second,
    ensures
        dynamic_linker(host, prefix, Some(first), target_env) != dynamic_linker(
            host,
            prefix,
            Some(second),
            target_env,
        ),
{
    reveal_strlit("/lib64/ld-linux-x86-64.so.2");
    reveal_strlit("/lib/ld-linux-");
    reveal_strlit(".so.1");
    let wide = "/lib64/ld-linux-x86-64.so.2"@;
    let stem = "/lib/ld-linux-"@;
    let tail = ".so.1"@;
    let n = prefix.len() as int;
    let one = dynamic_linker(host, prefix, Some(first), target_env);
    let two = dynamic_linker(host, prefix, Some(second), target_env);
    if first == "x86_64"@ {
        assert(one[n + 4] == wide[4]);
        assert(two[n + 4] == stem[4]);
    } else if second == "x86_64"@ {
        assert(two[n + 4] == wide[4]);
        assert(one[n + 4] == stem[4]);
    } else if one == two {
        assert(one.len() == n + 14 + first.len() + 5);
        assert(two.len() == n + 14 + second.len() + 5);
        assert forall|i: int| 0 <= i < first.len() implies first[i] == second[i] by {
            assert(one[n + 14 + i] == first[i]);
            assert(two[n + 14 + i] == second[i]);
        }
        assert(first =~= second);
    }
}

} // verus!
