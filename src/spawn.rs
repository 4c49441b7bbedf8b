use vstd::prelude::*;
use vstd::string::StringSliceAdditionalSpecFns;

use crate::attr::{AttrState, PosixSpawnAttr};
use crate::bytes::{copy_bytes, has_nul, nul_free, to_native, with_nul};
use crate::error::{SpawnError, EINVAL, ESRCH};
use crate::file_action::{OpenAction, PosixSpawnFileActions};

verus! {

/// The environment entry `KEY=VALUE`.
pub open spec fn env_entry(key: Seq<u8>, val: Seq<u8>) -> Seq<u8> {
    key + seq![61u8] + val
}

/// The byte strings held by `v`.
pub open spec fn strings_view(v: Seq<Vec<u8>>) -> Seq<Seq<u8>> {
    v.map_values(|x: Vec<u8>| x@)
}

/// Each string of `v` with its terminator.
pub open spec fn native_strings(v: Seq<Seq<u8>>) -> Seq<Seq<u8>> {
    v.map_values(|x: Seq<u8>| with_nul(x))
}

/// No string of `v` holds an embedded terminator.
pub open spec fn all_nul_free(v: Seq<Seq<u8>>) -> bool {
    forall|i: int| 0 <= i < v.len() ==> nul_free(#[trigger] v[i])
}

/// The facets requested of an optional attribute set.
pub open spec fn attr_view(a: Option<PosixSpawnAttr>) -> Option<AttrState> {
    match a {
        Some(x) => Some(x@),
        None => None,
    }
}

/// The actions recorded in an optional file-action list.
pub open spec fn actions_view(a: Option<PosixSpawnFileActions>) -> Option<Seq<OpenAction>> {
    match a {
        Some(x) => Some(x@),
        None => None,
    }
}

/// A process-creation request as accumulated by the builder.
pub struct SpawnState {
    pub path: Seq<u8>,
    pub args: Seq<Seq<u8>>,
    pub env: Seq<Seq<u8>>,
    pub attr: Option<AttrState>,
    pub actions: Option<Seq<OpenAction>>,
}

/// No string of the request holds an embedded terminator.
pub open spec fn request_valid(s: SpawnState) -> bool {
    nul_free(s.path) && all_nul_free(s.args) && all_nul_free(s.env)
}

/// Builder for one process creation: target path, argument list (the first
/// argument is the path), environment list, and optionally an attribute set
/// and a file-action list.
pub struct PosixSpawn {
    actions: Option<PosixSpawnFileActions>,
    attr: Option<PosixSpawnAttr>,
    path: Vec<u8>,
    args: Vec<Vec<u8>>,
    env: Vec<Vec<u8>>,
}

impl View for PosixSpawn {
    type V = SpawnState;

    closed spec fn view(&self) -> SpawnState {
        SpawnState {
            path: self.path@,
            args: strings_view(self.args@),
            env: strings_view(self.env@),
            attr: attr_view(self.attr),
            actions: actions_view(self.actions),
        }
    }
}

/// Everything the native creation call takes, laid out for it: the path and
/// each argument and environment entry end with the terminator. The argument
/// and environment arrays still need their null sentinel, which only the
/// native side can build.
pub struct SpawnPlan {
    pub path: Vec<u8>,
    pub args: Vec<Vec<u8>>,
    pub env: Vec<Vec<u8>>,
    pub attr: Option<PosixSpawnAttr>,
    pub actions: Option<PosixSpawnFileActions>,
}

/// Copies of the strings of `v`, each with its terminator, or `None` if one
/// holds an embedded terminator.
fn natives(v: &Vec<Vec<u8>>) -> (r: Option<Vec<Vec<u8>>>)
    ensures
        all_nul_free(strings_view(v@)) ==> r is Some && strings_view(r->Some_0@)
            == native_strings(strings_view(v@)),
        !all_nul_free(strings_view(v@)) ==> r is None,
{
    let mut out: Vec<Vec<u8>> = Vec::new();
    let mut i: usize = 0;
    while i < v.len()
        invariant
            i <= v@.len(),
            all_nul_free(strings_view(v@).subrange(0, i as int)),
            strings_view(out@) == native_strings(strings_view(v@).subrange(0, i as int)),
        decreases v@.len() - i,
    {
        let s = v[i].as_slice();
        if has_nul(s) {
            assert(!nul_free(strings_view(v@)[i as int]));
            return None;
        }
        let ghost prev = out@;
        let n = to_native(s);
        out.push(n);
        assert(strings_view(out@) =~= strings_view(prev).push(with_nul(v@[i as int]@)));
        assert(strings_view(v@).subrange(0, i + 1) =~= strings_view(v@).subrange(0, i as int).push(
            v@[i as int]@,
        ));
        assert(native_strings(strings_view(v@).subrange(0, i + 1)) =~= native_strings(
            strings_view(v@).subrange(0, i as int),
        ).push(with_nul(v@[i as int]@)));
        assert(strings_view(out@) =~= native_strings(strings_view(v@).subrange(0, i + 1)));
        i = i + 1;
    }
    assert(strings_view(v@).subrange(0, i as int) =~= strings_view(v@));
    Some(out)
}

impl PosixSpawn {
    /// A request to run `program`, with `program` as its only argument, an
    /// empty environment, and neither attribute set nor file actions.
    pub fn new(program: &str) -> (r: PosixSpawn)
        ensures
            r@ == (SpawnState {
                path: program.spec_bytes(),
                args: seq![program.spec_bytes()],
                env: Seq::empty(),
                attr: None,
                actions: None,
            }),
    {
        let b = program.as_bytes();
        let mut args: Vec<Vec<u8>> = Vec::new();
        args.push(copy_bytes(b));
        let r = PosixSpawn { actions: None, attr: None, path: copy_bytes(b), args, env: Vec::new() };
        assert(r@.args =~= seq![program.spec_bytes()]);
        assert(r@.env =~= Seq::<Seq<u8>>::empty());
        r
    }

    /// Appends one argument.
    pub fn arg(self, arg: &str) -> (r: PosixSpawn)
        ensures
            r@ == (SpawnState { args: self@.args.push(arg.spec_bytes()), ..self@ }),
    {
        let mut s = self;
        s.args.push(copy_bytes(arg.as_bytes()));
        assert(s@.args =~= self@.args.push(arg.spec_bytes()));
        s
    }

    /// Appends the environment entry `key=val`.
    pub fn env(self, key: &str, val: &str) -> (r: PosixSpawn)
        ensures
            r@ == (SpawnState {
                env: self@.env.push(env_entry(key.spec_bytes(), val.spec_bytes())),
                ..self@
            }),
    {
        let mut e = copy_bytes(key.as_bytes());
        e.push(61u8);
        let v = val.as_bytes();
        let ghost before = e@;
        let mut i: usize = 0;
        while i < v.len()
            invariant
                i <= v@.len(),
                e@ == before + v@.subrange(0, i as int),
            decreases v@.len() - i,
        {
            e.push(v[i]);
            assert(e@ =~= before + v@.subrange(0, i + 1));
            i = i + 1;
        }
        assert(v@.subrange(0, i as int) =~= v@);
        assert(e@ =~= env_entry(key.spec_bytes(), val.spec_bytes()));
        let mut s = self;
        s.env.push(e);
        assert(s@.env =~= self@.env.push(env_entry(key.spec_bytes(), val.spec_bytes())));
        s
    }

    /// Attaches an attribute set, replacing any attached before.
    pub fn attr(self, attr: PosixSpawnAttr) -> (r: PosixSpawn)
        ensures
            r@ == (SpawnState { attr: Some(attr@), ..self@ }),
    {
        let mut s = self;
        s.attr = Some(attr);
        s
    }

    /// Attaches a file-action list, replacing any attached before.
    pub fn file_actions(self, actions: PosixSpawnFileActions) -> (r: PosixSpawn)
        ensures
            r@ == (SpawnState { actions: Some(actions@), ..self@ }),
    {
        let mut s = self;
        s.actions = Some(actions);
        s
    }

    /// Consumes the request and lays it out for the native creation call.
    /// A path, argument or environment entry with an embedded terminator is
    /// refused with `InvalidArgument`, before anything reaches the native side.
    pub fn prepare(self) -> (r: Result<SpawnPlan, SpawnError>)
        ensures
            request_valid(self@) <==> r is Ok,
            r is Ok ==> {
                let p = r->Ok_0;
                &&& p.path@ == with_nul(self@.path)
                &&& strings_view(p.args@) == native_strings(self@.args)
                &&& strings_view(p.env@) == native_strings(self@.env)
                &&& attr_view(p.attr) == self@.attr
                &&& actions_view(p.actions) == self@.actions
            },
            r is Err ==> r->Err_0 == SpawnError::InvalidArgument(EINVAL),
    {
        let ghost v = self@;
        let PosixSpawn { actions, attr, path, args, env } = self;
        if has_nul(path.as_slice()) {
            return Err(SpawnError::InvalidArgument(EINVAL));
        }
        let args_n = match natives(&args) {
            Some(a) => a,
            None => {
                return Err(SpawnError::InvalidArgument(EINVAL));
            },
        };
        let env_n = match natives(&env) {
            Some(e) => e,
            None => {
                return Err(SpawnError::InvalidArgument(EINVAL));
            },
        };
        Ok(SpawnPlan { path: to_native(path.as_slice()), args: args_n, env: env_n, attr, actions })
    }
}

/// Reads what the native creation call reported: its return code `res` and
/// the child's process identifier. Zero with a positive identifier is
/// success; a non-zero code is that error; zero without a positive identifier
/// names no child and is reported as `ESRCH`.
pub fn spawn_result(res: i32, child_pid: i32) -> (r: Result<i32, SpawnError>)
    ensures
        res == 0 && child_pid > 0 ==> r == Ok::<i32, SpawnError>(child_pid),
        res != 0 ==> r == Err::<i32, SpawnError>(SpawnError::SpawnFailure(res)),
        res == 0 && child_pid <= 0 ==> r == Err::<i32, SpawnError>(
            SpawnError::SpawnFailure(ESRCH),
        ),
        r is Ok ==> r->Ok_0 > 0,
        r is Err ==> r->Err_0 is SpawnFailure && r->Err_0.code() != 0,
{
    if res != 0 {
        Err(SpawnError::SpawnFailure(res))
    } else if child_pid > 0 {
        Ok(child_pid)
    } else {
        Err(SpawnError::SpawnFailure(ESRCH))
    }
}

} // verus!
