//! Container names and the container-engine invocations that start and kill
//! a sandbox.

use vstd::prelude::*;
use crate::config::SecurityConfig;
use crate::runners::{LanguageRecipe, RecipeModel};
use crate::text::{decimal, decimal_text};

verus! {

/// A character of a lowercase hyphenated UUID.
pub open spec fn is_token_char(c: char) -> bool {
    ('0' <= c <= '9') || ('a' <= c <= 'f') || c == '-'
}

/// A token in the shape of a lowercase hyphenated UUID.
pub open spec fn is_token(t: Seq<char>) -> bool {
    t.len() == 36 && forall|i: int| 0 <= i < t.len() ==> is_token_char(#[trigger] t[i])
}

/// Relies on uuid's `Uuid::new_v4` and its `Display`: a random version-4 UUID,
/// written as 36 lowercase hexadecimal digits and hyphens.
#[verifier::external_body]
pub(crate) fn random_token() -> (r: String)
    ensures
        is_token(r@),
{
    uuid::Uuid::new_v4().to_string()
}

/// The name under which the container of one execution runs.
pub open spec fn container_name_spec(language: Seq<char>, token: Seq<char>) -> Seq<char> {
    "sandbox_"@ + language + "_"@ + token
}

/// The container name for a language and a unique token.
pub fn container_name(language: &str, token: &str) -> (r: String)
    ensures
        r@ == container_name_spec(language@, token@),
{
    let mut s = String::from_str("sandbox_");
    s.append(language);
    s.append("_");
    s.append(token);
    s
}

/// Names built from tokens of the same shape are equal only when the
/// languages and the tokens are: executions with distinct tokens never
/// share a container.
pub proof fn lemma_container_names_distinct(l1: Seq<char>, t1: Seq<char>, l2: Seq<char>, t2: Seq<char>)
    requires
        is_token(t1),
        is_token(t2),
        l1 != l2 || t1 != t2,
    ensures
        container_name_spec(l1, t1) != container_name_spec(l2, t2),
{
    let n1 = container_name_spec(l1, t1);
    let n2 = container_name_spec(l2, t2);
    if n1 == n2 {
        reveal_strlit("sandbox_");
        reveal_strlit("_");
        assert(n1.len() == 8 + l1.len() + 1 + t1.len());
        assert(n2.len() == 8 + l2.len() + 1 + t2.len());
        assert(l1.len() == l2.len());
        let k = 8 + l1.len();
        assert forall|i: int| 0 <= i < l1.len() implies l1[i] == l2[i] by {
            assert(n1[8 + i] == l1[i]);
            assert(n2[8 + i] == l2[i]);
        }
        assert forall|i: int| 0 <= i < t1.len() implies t1[i] == t2[i] by {
            assert(n1[k + 1 + i] == t1[i]);
            assert(n2[k + 1 + i] == t2[i]);
        }
        assert(l1 =~= l2);
        assert(t1 =~= t2);
    }
}

/// The value of the network option: no network, or the engine's default one.
pub open spec fn network_spec(disabled: bool) -> Seq<char> {
    if disabled { "none"@ } else { "default"@ }
}

/// The command run inside the container: compiled languages go through a
/// shell, interpreters are called directly.
pub open spec fn invocation_args(r: RecipeModel) -> Seq<Seq<char>> {
    if r.is_compiled {
        seq!["bash"@, "-c"@, r.invocation]
    } else {
        seq![r.invocation]
    }
}

/// The arguments given to the container engine to start one sandbox.
pub open spec fn run_args(r: RecipeModel, p: SecurityConfig, name: Seq<char>) -> Seq<Seq<char>> {
    seq![
        "run"@, "--rm"@, "--name"@, name,
        "--network"@, network_spec(p.disable_network),
        "--cpus"@, p.cpu_limit@,
        "--memory"@, p.memory_limit@,
        "--pids-limit"@, decimal(p.pids_limit as nat),
        "--ulimit"@, "nofile="@ + p.file_descriptor_limit@,
        "--security-opt"@, "no-new-privileges:true"@,
        "-i"@, r.image,
    ] + invocation_args(r)
}

/// The arguments given to the container engine to kill a sandbox by name.
pub open spec fn kill_args(name: Seq<char>) -> Seq<Seq<char>> {
    seq!["kill"@, name]
}

/// The views of a list of strings.
pub open spec fn views(v: Seq<String>) -> Seq<Seq<char>> {
    v.map_values(|s: String| s@)
}

/// The program that runs containers.
pub open spec fn engine_program() -> Seq<char> {
    "docker"@
}

/// A program and its arguments, to be run by the caller.
#[derive(Clone, Debug)]
pub struct CommandLine {
    pub program: String,
    pub args: Vec<String>,
}

fn owned(s: &str) -> (r: String)
    ensures
        r@ == s@,
{
    String::from_str(s)
}

/// The engine invocation that starts a sandbox for `recipe` under `policy`.
pub fn run_command(recipe: &LanguageRecipe, policy: &SecurityConfig, name: &str) -> (r: CommandLine)
    ensures
        r.program@ == engine_program(),
        views(r.args@) == run_args(recipe@, *policy, name@),
{
    let mut v: Vec<String> = Vec::new();
    v.push(owned("run"));
    v.push(owned("--rm"));
    v.push(owned("--name"));
    v.push(owned(name));
    v.push(owned("--network"));
    v.push(if policy.disable_network { owned("none") } else { owned("default") });
    v.push(owned("--cpus"));
    v.push(policy.cpu_limit.clone());
    v.push(owned("--memory"));
    v.push(policy.memory_limit.clone());
    v.push(owned("--pids-limit"));
    v.push(decimal_text(policy.pids_limit));
    v.push(owned("--ulimit"));
    v.push(owned("nofile=").concat(policy.file_descriptor_limit.as_str()));
    v.push(owned("--security-opt"));
    v.push(owned("no-new-privileges:true"));
    v.push(owned("-i"));
    v.push(owned(recipe.image));
    if recipe.is_compiled {
        v.push(owned("bash"));
        v.push(owned("-c"));
    }
    v.push(owned(recipe.invocation));
    assert(views(v@) =~= run_args(recipe@, *policy, name@));
    CommandLine { program: owned("docker"), args: v }
}

/// The engine invocation that kills the sandbox called `name`.
pub fn kill_command(name: &str) -> (r: CommandLine)
    ensures
        r.program@ == engine_program(),
        views(r.args@) == kill_args(name@),
{
    let mut v: Vec<String> = Vec::new();
    v.push(owned("kill"));
    v.push(owned(name));
    assert(views(v@) =~= kill_args(name@));
    CommandLine { program: owned("docker"), args: v }
}

} // verus!
