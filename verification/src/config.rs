//! Process configuration and command-line construction: detection of
//! audio-only operation, extraction of an explicitly supplied embedding
//! identifier from the caller's arguments, and assembly of the argument
//! list the player is spawned with.

use vstd::prelude::*;
use vstd::string::StringExecFns;
use crate::strutil::is_prefix_of;
use crate::strutil::strip_prefix_str;
use crate::strutil::str_eq;
use crate::strutil::parse_i64_spec;
use crate::strutil::parse_i64;
use crate::strutil::i64_dec;
use crate::strutil::push_i64_dec;

verus! {

/// What a caller supplies to initialize a player process: the executable
/// path, extra arguments, the readiness timeout, whether to echo the
/// player's output to the logging sink, and the property names the event
/// listener is to observe.
pub struct MpvConfig {
    pub path: String,
    pub args: Vec<String>,
    pub ipc_timeout_ms: u64,
    pub show_mpv_output: bool,
    pub observed_properties: Vec<String>,
}

/// An argument that asks for audio-only operation, in any of the
/// player's three spellings.
pub open spec fn is_audio_only_arg(a: Seq<char>) -> bool {
    a == "--no-video"@ || a == "--video=no"@ || a == "--vid=no"@
}

/// Some caller argument asks for audio-only operation.
pub open spec fn audio_only_spec(args: Seq<Seq<char>>) -> bool {
    exists|i: int| 0 <= i < args.len() && is_audio_only_arg(args[i])
}

pub fn is_audio_only(args: &Vec<String>) -> (r: bool)
    ensures
        r == audio_only_spec(args.deep_view()),
{
    let n = args.len();
    let mut i: usize = 0;
    while i < n
        invariant
            n == args@.len(),
            0 <= i <= n,
            forall|j: int| 0 <= j < i ==> !is_audio_only_arg(args.deep_view()[j]),
        decreases n - i,
    {
        let a = args[i].as_str();
        proof {
            assert(args.deep_view()[i as int] == args@[i as int]@);
        }
        if str_eq(a, "--no-video") || str_eq(a, "--video=no") || str_eq(a, "--vid=no") {
            proof {
                assert(is_audio_only_arg(args.deep_view()[i as int]));
            }
            return true;
        }
        i = i + 1;
    }
    proof {
        assert(!audio_only_spec(args.deep_view()));
    }
    false
}

/// The flag prefix that supplies an explicit embedding identifier.
pub open spec fn wid_marker() -> Seq<char> {
    "--wid="@
}

pub open spec fn is_wid_arg(a: Seq<char>) -> bool {
    is_prefix_of(wid_marker(), a)
}

/// The text after the marker of the first argument that carries it.
pub open spec fn first_wid_suffix(args: Seq<Seq<char>>) -> Option<Seq<char>>
    decreases args.len(),
{
    if args.len() == 0 {
        None
    } else if is_wid_arg(args.first()) {
        Some(args.first().skip(wid_marker().len() as int))
    } else {
        first_wid_suffix(args.drop_first())
    }
}

proof fn lemma_first_wid_skip_step(args: Seq<Seq<char>>, i: int)
    requires
        0 <= i < args.len(),
        !is_wid_arg(args[i]),
    ensures
        first_wid_suffix(args.skip(i)) == first_wid_suffix(args.skip(i + 1)),
{
    assert(args.skip(i).first() == args[i]);
    assert(args.skip(i).drop_first() =~= args.skip(i + 1));
}

/// The value of the first `--wid=` argument, when one is present.
pub fn find_wid_arg(args: &Vec<String>) -> (r: Option<String>)
    ensures
        r matches Some(s) ==> first_wid_suffix(args.deep_view()) == Some(s@),
        r is None ==> first_wid_suffix(args.deep_view()) is None,
{
    let ghost dv = args.deep_view();
    proof {
        assert(dv.skip(0) =~= dv);
    }
    let n = args.len();
    let mut i: usize = 0;
    while i < n
        invariant
            n == args@.len(),
            dv == args.deep_view(),
            0 <= i <= n,
            first_wid_suffix(dv) == first_wid_suffix(dv.skip(i as int)),
        decreases n - i,
    {
        proof {
            assert(dv[i as int] == args@[i as int]@);
            assert(dv.skip(i as int).first() == dv[i as int]);
        }
        match strip_prefix_str(args[i].as_str(), "--wid=") {
            Some(t) => {
                proof {
                    assert(is_wid_arg(dv[i as int]));
                    assert(first_wid_suffix(dv.skip(i as int)) == Some(
                        dv[i as int].skip(wid_marker().len() as int),
                    ));
                }
                return Some(String::from_str(t));
            },
            None => {
                proof {
                    lemma_first_wid_skip_step(dv, i as int);
                }
            },
        }
        i = i + 1;
    }
    proof {
        assert(dv.skip(n as int) =~= Seq::<Seq<char>>::empty());
    }
    None
}

/// The embedding identifier the caller supplied explicitly: the value of
/// the first `--wid=` argument, when it parses as a signed decimal.
pub open spec fn parsed_wid_spec(args: Seq<Seq<char>>) -> Option<int> {
    match first_wid_suffix(args) {
        Some(s) => parse_i64_spec(s),
        None => None,
    }
}

pub fn parsed_wid(args: &Vec<String>) -> (r: Option<i64>)
    ensures
        r matches Some(w) ==> parsed_wid_spec(args.deep_view()) == Some(w as int),
        r is None ==> parsed_wid_spec(args.deep_view()) is None,
{
    match find_wid_arg(args) {
        Some(s) => parse_i64(s.as_str()),
        None => None,
    }
}

/// The argument list the player is spawned with: the IPC endpoint, the
/// fixed baseline profile, then an embedding flag when one was resolved
/// for the player (never when the caller already supplied one), then all
/// caller arguments, last so that they can override what comes earlier.
pub open spec fn build_args_spec(
    ipc_pipe: Seq<char>,
    wid_to_add: Option<i64>,
    extra: Seq<Seq<char>>,
) -> Seq<Seq<char>> {
    let base = seq!["--input-ipc-server="@ + ipc_pipe, "--profile=libmpv"@];
    let with_wid = match wid_to_add {
        Some(w) => base.push("--wid="@ + i64_dec(w as int)),
        None => base,
    };
    with_wid + extra
}

pub fn build_args(ipc_pipe: &str, wid_to_add: Option<i64>, extra: &Vec<String>) -> (r: Vec<
    String,
>)
    ensures
        r.deep_view() == build_args_spec(ipc_pipe@, wid_to_add, extra.deep_view()),
{
    let ghost goal = build_args_spec(ipc_pipe@, wid_to_add, extra.deep_view());
    let mut v: Vec<String> = Vec::new();
    let mut a0 = String::from_str("--input-ipc-server=");
    a0.append(ipc_pipe);
    v.push(a0);
    v.push(String::from_str("--profile=libmpv"));
    if let Some(w) = wid_to_add {
        let mut aw = String::from_str("--wid=");
        push_i64_dec(&mut aw, w);
        v.push(aw);
    }
    let ghost head = v.deep_view();
    proof {
        assert(head =~= goal.take(head.len() as int));
    }
    let n = extra.len();
    let mut i: usize = 0;
    while i < n
        invariant
            n == extra@.len(),
            0 <= i <= n,
            goal == build_args_spec(ipc_pipe@, wid_to_add, extra.deep_view()),
            head.len() + extra@.len() == goal.len(),
            v.deep_view() =~= goal.take((head.len() + i) as int),
        decreases n - i,
    {
        let e = extra[i].clone();
        proof {
            assert(extra.deep_view()[i as int] == extra@[i as int]@);
            assert(goal[(head.len() + i) as int] == extra.deep_view()[i as int]);
        }
        let ghost prev = v.deep_view();
        v.push(e);
        proof {
            assert(v.deep_view().len() == prev.len() + 1);
            assert(forall|k: int| 0 <= k < prev.len() ==> v.deep_view()[k] == prev[k]);
            assert(v.deep_view()[prev.len() as int] == e@);
            assert(v.deep_view() =~= goal.take((head.len() + i + 1) as int));
        }
        i = i + 1;
    }
    proof {
        assert(goal.take((head.len() + n) as int) =~= goal);
        assert(v.deep_view() =~= goal);
    }
    v
}

} // verus!
