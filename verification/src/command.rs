//! The caller-supplied description of what to run: a program path, its
//! arguments, environment overrides, and an optional working directory.

use vstd::prelude::*;

verus! {

/// What one environment override means: give a variable a value, or take
/// it out of the child's environment altogether.
pub enum EnvDirective {
    Assign(Seq<char>, Seq<char>),
    Unset(Seq<char>),
}

/// One environment override as the caller writes it down.
#[derive(Clone, Debug, PartialEq, Eq)]
pub enum EnvAction {
    Assign { key: String, value: String },
    Unset { key: String },
}

impl EnvAction {
    /// A field-for-field copy.
    pub fn duplicate(&self) -> (r: EnvAction)
        ensures
            r == self,
    {
        match self {
            EnvAction::Assign { key, value } => EnvAction::Assign {
                key: key.clone(),
                value: value.clone(),
            },
            EnvAction::Unset { key } => EnvAction::Unset { key: key.clone() },
        }
    }
}

impl View for EnvAction {
    type V = EnvDirective;

    open spec fn view(&self) -> EnvDirective {
        match self {
            EnvAction::Assign { key, value } => EnvDirective::Assign(key@, value@),
            EnvAction::Unset { key } => EnvDirective::Unset(key@),
        }
    }
}

/// The directives of a list of overrides, in order.
pub open spec fn directives_of(actions: Seq<EnvAction>) -> Seq<EnvDirective> {
    actions.map_values(|a: EnvAction| a@)
}

/// The value `key` ends with once every directive has been applied, in
/// order, starting from whatever the ambient environment gave it: the
/// last directive that names the key decides, and a key no directive
/// names keeps its ambient value.
pub open spec fn resolved_env(
    directives: Seq<EnvDirective>,
    key: Seq<char>,
    ambient: Option<Seq<char>>,
) -> Option<Seq<char>>
    decreases directives.len(),
{
    if directives.len() == 0 {
        ambient
    } else {
        match directives.last() {
            EnvDirective::Assign(k, v) => if k == key {
                Some(v)
            } else {
                resolved_env(directives.drop_last(), key, ambient)
            },
            EnvDirective::Unset(k) => if k == key {
                None
            } else {
                resolved_env(directives.drop_last(), key, ambient)
            },
        }
    }
}

/// The view of an optional owned string.
pub open spec fn opt_str_view(o: Option<String>) -> Option<Seq<char>> {
    match o {
        Some(s) => Some(s@),
        None => None,
    }
}

/// A command specification: the read-only input to both launch
/// strategies.
pub struct CommandSpec {
    pub program: String,
    pub args: Vec<String>,
    pub envs: Vec<EnvAction>,
    pub current_dir: Option<String>,
}

impl CommandSpec {
    /// A specification that runs `program` with no arguments, no
    /// environment overrides, and no explicit working directory.
    pub fn new(program: String) -> (c: CommandSpec)
        ensures
            c.program == program,
            c.args@.len() == 0,
            c.envs@.len() == 0,
            c.current_dir is None,
    {
        CommandSpec { program, args: Vec::new(), envs: Vec::new(), current_dir: None }
    }

    /// Appends one argument.
    pub fn arg(&mut self, a: String)
        ensures
            final(self).args@ == old(self).args@.push(a),
            final(self).program == old(self).program,
            final(self).envs == old(self).envs,
            final(self).current_dir == old(self).current_dir,
    {
        self.args.push(a);
    }

    /// Adds an override that gives `key` the value `value` in the
    /// child's environment.
    pub fn env_set(&mut self, key: String, value: String)
        ensures
            final(self).envs@ == old(self).envs@.push(EnvAction::Assign { key, value }),
            final(self).program == old(self).program,
            final(self).args == old(self).args,
            final(self).current_dir == old(self).current_dir,
    {
        self.envs.push(EnvAction::Assign { key, value });
    }

    /// Adds an override that takes `key` out of the child's environment.
    pub fn env_remove(&mut self, key: String)
        ensures
            final(self).envs@ == old(self).envs@.push(EnvAction::Unset { key }),
            final(self).program == old(self).program,
            final(self).args == old(self).args,
            final(self).current_dir == old(self).current_dir,
    {
        self.envs.push(EnvAction::Unset { key });
    }

    /// Sets the working directory the child starts in.
    pub fn current_dir(&mut self, dir: String)
        ensures
            final(self).current_dir == Some(dir),
            final(self).program == old(self).program,
            final(self).args == old(self).args,
            final(self).envs == old(self).envs,
    {
        self.current_dir = Some(dir);
    }
}

/// The value `key` ends with under `actions`, starting from `ambient`.
pub fn resolve_env(actions: &Vec<EnvAction>, key: &String, ambient: Option<String>) -> (r: Option<
    String,
>)
    ensures
        opt_str_view(r) == resolved_env(directives_of(actions@), key@, opt_str_view(ambient)),
{
    let ghost dirs = directives_of(actions@);
    let n = actions.len();
    proof {
        assert(dirs.take(n as int) =~= dirs);
    }
    let mut i: usize = n;
    while i > 0
        invariant
            i <= n,
            n == actions@.len(),
            dirs == directives_of(actions@),
            resolved_env(dirs, key@, opt_str_view(ambient)) == resolved_env(
                dirs.take(i as int),
                key@,
                opt_str_view(ambient),
            ),
        decreases i,
    {
        i = i - 1;
        proof {
            assert(dirs.take(i + 1).drop_last() =~= dirs.take(i as int));
            assert(dirs.take(i + 1).last() == dirs[i as int]);
            assert(dirs[i as int] == actions@[i as int]@);
        }
        match &actions[i] {
            EnvAction::Assign { key: k, value: v } => {
                if k.eq(key) {
                    proof {
                        assert(dirs[i as int] == EnvDirective::Assign(k@, v@));
                        assert(resolved_env(dirs.take(i + 1), key@, opt_str_view(ambient))
                            == Some(v@));
                    }
                    return Some(v.clone());
                }
                proof {
                    assert(dirs[i as int] == EnvDirective::Assign(k@, v@));
                    assert(resolved_env(dirs.take(i + 1), key@, opt_str_view(ambient))
                        == resolved_env(dirs.take(i as int), key@, opt_str_view(ambient)));
                }
            },
            EnvAction::Unset { key: k } => {
                if k.eq(key) {
                    proof {
                        assert(dirs[i as int] == EnvDirective::Unset(k@));
                        assert(resolved_env(dirs.take(i + 1), key@, opt_str_view(ambient))
                            == None::<Seq<char>>);
                    }
                    return None;
                }
                proof {
                    assert(dirs[i as int] == EnvDirective::Unset(k@));
                    assert(resolved_env(dirs.take(i + 1), key@, opt_str_view(ambient))
                        == resolved_env(dirs.take(i as int), key@, opt_str_view(ambient)));
                }
            },
        }
    }
    proof {
        assert(dirs.take(0) =~= Seq::<EnvDirective>::empty());
    }
    ambient
}

/// Environment pass-through: a specification that assigns one variable
/// and unsets another resolves the first to the assigned value and drops
/// the second, whatever the ambient environment held for either of them.
pub proof fn lemma_env_pass_through(
    x: Seq<char>,
    v: Seq<char>,
    y: Seq<char>,
    ambient_x: Option<Seq<char>>,
    ambient_y: Option<Seq<char>>,
)
    requires
        x != y,
    ensures
        resolved_env(seq![EnvDirective::Assign(x, v), EnvDirective::Unset(y)], x, ambient_x)
            == Some(v),
        resolved_env(seq![EnvDirective::Assign(x, v), EnvDirective::Unset(y)], y, ambient_y)
            == None::<Seq<char>>,
{
    let dirs = seq![EnvDirective::Assign(x, v), EnvDirective::Unset(y)];
    let tail = seq![EnvDirective::Assign(x, v)];
    assert(dirs.last() == EnvDirective::Unset(y));
    assert(dirs.drop_last() =~= tail);
    assert(resolved_env(dirs, x, ambient_x) == resolved_env(tail, x, ambient_x));
    assert(tail.last() == EnvDirective::Assign(x, v));
    assert(resolved_env(tail, x, ambient_x) == Some(v));
    assert(resolved_env(dirs, y, ambient_y) == None::<Seq<char>>);
}

} // verus!
