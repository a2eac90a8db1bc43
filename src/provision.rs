use vstd::prelude::*;

use rand::Rng;

use crate::error::ServiceError;
use crate::ports::get_free_port;
use crate::text::{decimal, decimal_string, push_char};

verus! {

/// Number of random characters in the name of an executable copy.
pub const TOKEN_LEN: usize = 16;

/// An ASCII letter or digit.
pub open spec fn is_alphanumeric(c: char) -> bool {
    ('A' <= c && c <= 'Z') || ('a' <= c && c <= 'z') || ('0' <= c && c <= '9')
}

/// A token that may stand in the name of an executable copy.
pub open spec fn is_token(t: Seq<char>) -> bool {
    &&& t.len() == TOKEN_LEN
    &&& forall|i: int| 0 <= i < t.len() ==> is_alphanumeric(#[trigger] t[i])
}

/// Relies on rand's `Alphanumeric` distribution, sampled from the thread-local
/// generator: each sample is one byte of `A-Z`, `a-z` or `0-9`.
#[verifier::external_body]
fn random_alphanumeric() -> (c: char)
    ensures
        is_alphanumeric(c),
{
    rand::thread_rng().sample(rand::distributions::Alphanumeric) as char
}

/// Draws a fresh random token of `TOKEN_LEN` letters and digits.
pub fn random_token() -> (r: String)
    ensures
        is_token(r@),
{
    let mut s = String::new();
    let mut i: usize = 0;
    while i < TOKEN_LEN
        invariant
            i <= TOKEN_LEN,
            s@.len() == i,
            forall|j: int| 0 <= j < s@.len() ==> is_alphanumeric(#[trigger] s@[j]),
        decreases TOKEN_LEN - i,
    {
        let c = random_alphanumeric();
        push_char(&mut s, c);
        i = i + 1;
    }
    s
}

/// Index of the final `.` of a file name, or -1 where it has none.
pub open spec fn last_dot(name: Seq<char>) -> int
    decreases name.len(),
{
    if name.len() == 0 {
        -1
    } else if name.last() == '.' {
        name.len() - 1
    } else {
        last_dot(name.drop_last())
    }
}

/// The stem of a file name: the part before the final `.`, or the whole name
/// where it has no `.` or only a leading one.
pub open spec fn stem_of_name(name: Seq<char>) -> Seq<char> {
    if last_dot(name) > 0 {
        name.subrange(0, last_dot(name))
    } else {
        name
    }
}

/// The extension of a file name: the part after the final `.`, where that `.`
/// is not the first character.
pub open spec fn extension_of_name(name: Seq<char>) -> Option<Seq<char>> {
    if last_dot(name) > 0 {
        Some(name.subrange(last_dot(name) + 1, name.len() as int))
    } else {
        None
    }
}

/// The final component of a path, as `Path::file_name` reads it.
pub uninterp spec fn file_name_of(path: Seq<char>) -> Option<Seq<char>>;

/// The path with its final component replaced, as `Path::with_file_name`
/// builds it.
pub uninterp spec fn with_file_name_of(path: Seq<char>, name: Seq<char>) -> Seq<char>;

/// The path without its final component, as `Path::parent` reads it.
pub uninterp spec fn parent_of(path: Seq<char>) -> Option<Seq<char>>;

pub open spec fn opt_view(o: Option<String>) -> Option<Seq<char>> {
    match o {
        Some(s) => Some(s@),
        None => None,
    }
}

/// The stem of a path's file name; empty where the path has no file name.
pub open spec fn path_stem(path: Seq<char>) -> Seq<char> {
    match file_name_of(path) {
        Some(n) => stem_of_name(n),
        None => Seq::empty(),
    }
}

/// The extension of a path's file name.
pub open spec fn path_extension(path: Seq<char>) -> Option<Seq<char>> {
    match file_name_of(path) {
        Some(n) => extension_of_name(n),
        None => None,
    }
}

/// Relies on `Path::file_stem`, documented as: none without a file name; the
/// whole file name where it holds no `.` or only a leading one; else the part
/// before the final `.`.
#[verifier::external_body]
fn file_stem(path: &str) -> (r: Option<String>)
    ensures
        opt_view(r) == (match file_name_of(path@) {
            Some(n) => Some(stem_of_name(n)),
            None => None,
        }),
{
    std::path::Path::new(path).file_stem().map(|s| s.to_string_lossy().into_owned())
}

/// Relies on `Path::extension`, documented as: none without a file name, or
/// where it holds no `.` or only a leading one; else the part after the final
/// `.`.
#[verifier::external_body]
fn extension(path: &str) -> (r: Option<String>)
    ensures
        opt_view(r) == (match file_name_of(path@) {
            Some(n) => extension_of_name(n),
            None => None,
        }),
{
    std::path::Path::new(path).extension().map(|s| s.to_string_lossy().into_owned())
}

/// No character that a path could read as a separator or a drive prefix.
pub open spec fn no_separator(s: Seq<char>) -> bool {
    forall|i: int| 0 <= i < s.len() ==> #[trigger] s[i] != '/' && s[i] != '\\' && s[i] != ':'
}

/// A name that a path takes as one ordinary component.
pub open spec fn is_plain_name(name: Seq<char>) -> bool {
    &&& name.len() > 0
    &&& no_separator(name)
    &&& name != "."@
    &&& name != ".."@
}

/// Relies on `Path::with_file_name`: the path with its final component
/// replaced by `name`. As documented, this pops the old file name, if any,
/// and pushes `name`; a plain relative name pushed onto a path becomes its
/// file name.
#[verifier::external_body]
fn with_file_name(path: &str, name: &str) -> (r: String)
    ensures
        r@ == with_file_name_of(path@, name@),
        is_plain_name(name@) ==> file_name_of(r@) == Some(name@),
{
    std::path::Path::new(path).with_file_name(name).to_string_lossy().into_owned()
}

/// Relies on `Path::parent`: the path without its final component, none for a
/// root or an empty path.
#[verifier::external_body]
fn parent(path: &str) -> (r: Option<String>)
    ensures
        opt_view(r) == parent_of(path@),
{
    std::path::Path::new(path).parent().map(|p| p.to_string_lossy().into_owned())
}

/// The file name of an executable copy:
/// `SUBPROCESS_<stem>_<token>` followed by `.<extension>` where there is one.
pub open spec fn copy_name(stem: Seq<char>, ext: Option<Seq<char>>, token: Seq<char>) -> Seq<char> {
    "SUBPROCESS_"@ + stem + "_"@ + token + match ext {
        Some(e) => "."@ + e,
        None => Seq::empty(),
    }
}

/// The path of the copy of `source` named with `token`: same directory, file
/// name given by `copy_name`.
pub open spec fn destination(source: Seq<char>, token: Seq<char>) -> Seq<char> {
    with_file_name_of(source, copy_name(path_stem(source), path_extension(source), token))
}

/// Builds the file name of an executable copy from the original's stem and
/// extension.
pub fn copy_file_name(stem: &str, extension: Option<&str>, token: &str) -> (r: String)
    ensures
        r@ == copy_name(
            stem@,
            match extension {
                Some(e) => Some(e@),
                None => None,
            },
            token@,
        ),
{
    let mut s = String::from_str("SUBPROCESS_");
    s.append(stem);
    s.append("_");
    s.append(token);
    match extension {
        Some(e) => {
            s.append(".");
            s.append(e);
        },
        None => {},
    }
    s
}

/// The path that a copy of `source` named with `token` is written to.
pub fn destination_for(source: &str, token: &str) -> (r: String)
    ensures
        r@ == destination(source@, token@),
        is_token(token@) && no_separator(path_stem(source@)) && (path_extension(source@) matches Some(
            e,
        ) ==> no_separator(e)) ==> file_name_of(r@) == Some(
            copy_name(path_stem(source@), path_extension(source@), token@),
        ),
{
    let stem = match file_stem(source) {
        Some(s) => s,
        None => String::new(),
    };
    let ext = extension(source);
    let name = match &ext {
        Some(e) => copy_file_name(stem.as_str(), Some(e.as_str()), token),
        None => copy_file_name(stem.as_str(), None, token),
    };
    proof {
        if is_token(token@) && no_separator(path_stem(source@)) && (path_extension(source@) matches Some(
            e,
        ) ==> no_separator(e)) {
            lemma_copy_name_plain(path_stem(source@), path_extension(source@), token@);
        }
    }
    with_file_name(source, name.as_str())
}

/// The address of an instance listening on `port` of this host.
pub open spec fn address_of(port: nat) -> Seq<char> {
    "http://localhost:"@ + decimal(port)
}

/// Writes `http://localhost:<port>`.
pub fn instance_address(port: u16) -> (r: String)
    ensures
        r@ == address_of(port as nat),
{
    let digits = decimal_string(port as u32);
    let mut s = String::from_str("http://localhost:");
    s.append(digits.as_str());
    s
}

/// What it takes to start a copied executable as a detached instance.
pub struct LaunchPlan {
    /// The executable to run.
    pub program: String,
    /// The directory it runs in: the one that holds it.
    pub working_dir: String,
    /// The port it is told to listen on.
    pub port: u16,
    /// Its one command-line argument: the port in decimal.
    pub port_arg: String,
    /// Where clients reach it once it listens.
    pub address: String,
}

/// `plan` starts `program` from its own directory on `port` and reports the
/// matching local address.
pub open spec fn plans_launch(plan: LaunchPlan, program: Seq<char>, port: u16) -> bool {
    &&& parent_of(program) is Some
    &&& plan.program@ == program
    &&& plan.working_dir@ == parent_of(program)->0
    &&& plan.port == port
    &&& plan.port_arg@ == decimal(port as nat)
    &&& plan.address@ == address_of(port as nat)
}

/// Plans the start of the executable at `program` on `port`. Fails with
/// `Spawn` where the path has no directory to run it from.
pub fn launch_plan(program: &str, port: u16) -> (r: Result<LaunchPlan, ServiceError>)
    ensures
        parent_of(program@) is Some <==> r is Ok,
        r matches Ok(plan) ==> plans_launch(plan, program@, port),
        r matches Err(e) ==> e == ServiceError::Spawn,
{
    match parent(program) {
        None => Err(ServiceError::Spawn),
        Some(dir) => {
            let port_arg = decimal_string(port as u32);
            let address = instance_address(port);
            Ok(LaunchPlan { program: String::from_str(program), working_dir: dir, port, port_arg, address })
        },
    }
}

/// Plans the start of the copy at `program` on a port freshly obtained from
/// the operating system. Fails with `Spawn` where the path has no directory
/// to run it from, else with `Allocation` where no port was free.
pub fn prepare_launch(program: &str) -> (r: Result<LaunchPlan, ServiceError>)
    ensures
        r matches Ok(plan) ==> 1 <= plan.port && plans_launch(plan, program@, plan.port),
        r matches Err(e) ==> (e == ServiceError::Spawn) == (parent_of(program@) is None),
        r matches Err(e) ==> e == ServiceError::Spawn || e == ServiceError::Allocation,
        parent_of(program@) is None ==> r is Err,
{
    if parent(program).is_none() {
        return Err(ServiceError::Spawn);
    }
    match get_free_port() {
        Err(e) => Err(e),
        Ok(port) => launch_plan(program, port),
    }
}

/// Where the bytes of an executable are copied to before the copy is started.
pub struct CopyPlan {
    /// The executable to copy.
    pub source: String,
    /// The random token that names the copy.
    pub token: String,
    /// The path of the copy: the source's directory, a name from `copy_name`.
    pub destination: String,
}

/// Draws a fresh token and derives from it the path of a new copy of
/// `source`.
pub fn plan_copy(source: &str) -> (r: CopyPlan)
    ensures
        r.source@ == source@,
        is_token(r.token@),
        r.destination@ == destination(source@, r.token@),
        no_separator(path_stem(source@)) && (path_extension(source@) matches Some(e) ==> no_separator(
            e,
        )) ==> file_name_of(r.destination@) == Some(
            copy_name(path_stem(source@), path_extension(source@), r.token@),
        ),
{
    let token = random_token();
    let destination = destination_for(source, token.as_str());
    CopyPlan { source: String::from_str(source), token, destination }
}

/// The token stands at a fixed place in the name of a copy, so two copies of
/// one executable named with different tokens never share a file name.
pub proof fn lemma_distinct_tokens_distinct_names(
    stem: Seq<char>,
    ext: Option<Seq<char>>,
    t1: Seq<char>,
    t2: Seq<char>,
)
    requires
        is_token(t1),
        is_token(t2),
        t1 != t2,
    ensures
        copy_name(stem, ext, t1) != copy_name(stem, ext, t2),
{
    let prefix = "SUBPROCESS_"@ + stem + "_"@;
    let suffix = match ext {
        Some(e) => "."@ + e,
        None => Seq::<char>::empty(),
    };
    let n1 = copy_name(stem, ext, t1);
    let n2 = copy_name(stem, ext, t2);
    assert(n1 == prefix + t1 + suffix);
    assert(n2 == prefix + t2 + suffix);
    assert(n1.subrange(prefix.len() as int, prefix.len() + TOKEN_LEN) =~= t1);
    assert(n2.subrange(prefix.len() as int, prefix.len() + TOKEN_LEN) =~= t2);
}

/// A copy name is plain when the source's stem and extension are.
pub proof fn lemma_copy_name_plain(stem: Seq<char>, ext: Option<Seq<char>>, token: Seq<char>)
    requires
        no_separator(stem),
        ext matches Some(e) ==> no_separator(e),
        is_token(token),
    ensures
        is_plain_name(copy_name(stem, ext, token)),
{
    reveal_strlit("SUBPROCESS_");
    reveal_strlit("_");
    reveal_strlit(".");
    reveal_strlit("..");
    let n = copy_name(stem, ext, token);
    let prefix = "SUBPROCESS_"@ + stem + "_"@;
    let suffix = match ext {
        Some(e) => "."@ + e,
        None => Seq::<char>::empty(),
    };
    assert(n == prefix + token + suffix);
    assert forall|i: int| 0 <= i < n.len() implies #[trigger] n[i] != '/' && n[i] != '\\' && n[i]
        != ':' by {
        if i < 11 {
            assert(n[i] == "SUBPROCESS_"@[i]);
        } else if i < 11 + stem.len() {
            assert(n[i] == stem[i - 11]);
        } else if i == 11 + stem.len() {
            assert(n[i] == '_');
        } else if i < prefix.len() + TOKEN_LEN {
            assert(n[i] == token[i - prefix.len()]);
        } else {
            let e = ext->0;
            assert(n[i] == suffix[i - prefix.len() - TOKEN_LEN]);
            if i > prefix.len() + TOKEN_LEN {
                assert(suffix[i - prefix.len() - TOKEN_LEN] == e[i - prefix.len() - TOKEN_LEN - 1]);
            }
        }
    }
    assert(n[0] == 'S');
    assert(n != "."@ && n != ".."@) by {
        assert("."@[0] == '.');
        assert(".."@[0] == '.');
    }
}

/// Two copies of one executable named with different tokens are written to
/// different paths: each destination's file name is the copy name of its token.
pub proof fn lemma_distinct_tokens_distinct_destinations(
    source: Seq<char>,
    t1: Seq<char>,
    t2: Seq<char>,
    d1: Seq<char>,
    d2: Seq<char>,
)
    requires
        is_token(t1),
        is_token(t2),
        t1 != t2,
        file_name_of(d1) == Some(copy_name(path_stem(source), path_extension(source), t1)),
        file_name_of(d2) == Some(copy_name(path_stem(source), path_extension(source), t2)),
    ensures
        d1 != d2,
{
    lemma_distinct_tokens_distinct_names(path_stem(source), path_extension(source), t1, t2);
}

} // verus!
