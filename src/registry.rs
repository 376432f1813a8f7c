use vstd::prelude::*;

use crate::error::{CommandError, ErrorKind};
use crate::tokenize::{split_tokens, tokens, views};

verus! {

/// What a dispatch resolved to: the handler to run and its arguments.
pub struct Invocation<H> {
    pub handler: H,
    pub args: Vec<String>,
}

/// The handler that a call of `name` runs in a registry whose contents
/// are `reg`, or `None` when the name is not registered.
pub open spec fn selected<H>(reg: Map<Seq<char>, H>, name: Seq<char>) -> Option<H> {
    if reg.contains_key(name) {
        Some(reg[name])
    } else {
        None
    }
}

/// The diagnostic text for an unknown command name.
pub open spec fn not_found_msg(name: Seq<char>) -> Seq<char> {
    "Command '"@ + name + "' not recognized."@
}

/// The diagnostic text for a line without any token.
pub open spec fn no_command_msg() -> Seq<char> {
    "No command specified."@
}

/// A mapping from command names to handlers, filled before dispatch starts.
pub struct AsyncCommandHandler<H> {
    commands: Vec<(String, H)>,
    contents: Ghost<Map<Seq<char>, H>>,
}

impl<H: Copy> View for AsyncCommandHandler<H> {
    type V = Map<Seq<char>, H>;

    closed spec fn view(&self) -> Map<Seq<char>, H> {
        self.contents@
    }
}

impl<H: Copy> AsyncCommandHandler<H> {
    /// The name stored in entry `i`.
    pub closed spec fn key(&self, i: int) -> Seq<char> {
        self.commands@[i].0@
    }

    /// Names are unique among the entries, and the entries are exactly the
    /// contents of the map view.
    pub closed spec fn wf(&self) -> bool {
        &&& forall|i: int, j: int|
            0 <= i < j < self.commands@.len() ==> #[trigger] self.key(i) != #[trigger] self.key(j)
        &&& forall|i: int|
            0 <= i < self.commands@.len() ==> self.contents@.contains_key(#[trigger] self.key(i))
                && self.contents@[self.key(i)] == self.commands@[i].1
        &&& forall|k: Seq<char>|
            #[trigger] self.contents@.contains_key(k) ==> exists|i: int|
                0 <= i < self.commands@.len() && #[trigger] self.key(i) == k
    }

    /// An empty registry.
    pub fn new() -> (r: Self)
        ensures
            r.wf(),
            r@ == Map::<Seq<char>, H>::empty(),
    {
        AsyncCommandHandler { commands: Vec::new(), contents: Ghost(Map::empty()) }
    }

    /// The position of `name` among the entries, if it is there.
    fn find(&self, name: &str) -> (r: Option<usize>)
        requires
            self.wf(),
        ensures
            match r {
                Some(i) => i < self.commands@.len() && self.key(i as int) == name@,
                None => !self@.contains_key(name@),
            },
    {
        let wanted = String::from_str(name);
        let mut i: usize = 0;
        while i < self.commands.len()
            invariant
                self.wf(),
                i <= self.commands@.len(),
                wanted@ == name@,
                forall|j: int| 0 <= j < i ==> self.key(j) != name@,
            decreases self.commands@.len() - i,
        {
            if self.commands[i].0 == wanted {
                return Some(i);
            }
            i = i + 1;
        }
        None
    }

    /// Binds `identifier` to `handler`; a name bound before is rebound, the
    /// last registration winning.
    pub fn register(&mut self, identifier: &str, handler: H)
        requires
            old(self).wf(),
        ensures
            final(self).wf(),
            final(self)@ == old(self)@.insert(identifier@, handler),
    {
        let ghost prev = *self;
        match self.find(identifier) {
            Some(i) => {
                let name = self.commands[i].0.clone();
                self.commands.set(i, (name, handler));
                self.contents = Ghost(self.contents@.insert(identifier@, handler));
                assert forall|j: int| 0 <= j < self.commands@.len() implies #[trigger] self.key(j)
                    == prev.key(j) by {
                    if j != i {
                        assert(self.commands@[j] == prev.commands@[j]);
                    }
                }
                assert forall|k: Seq<char>| #[trigger] self.contents@.contains_key(k) implies exists|
                    j: int,
                |
                    0 <= j < self.commands@.len() && #[trigger] self.key(j) == k by {
                    if k != identifier@ {
                        let j = choose|j: int| 0 <= j < prev.commands@.len() && prev.key(j) == k;
                        assert(self.key(j) == k);
                    } else {
                        assert(self.key(i as int) == k);
                    }
                }
            },
            None => {
                self.commands.push((String::from_str(identifier), handler));
                self.contents = Ghost(self.contents@.insert(identifier@, handler));
                let ghost n: int = self.commands@.len() - 1;
                assert(self.key(n) == identifier@);
                assert forall|j: int| 0 <= j < n implies #[trigger] self.key(j) == prev.key(j) by {
                    assert(self.commands@[j] == prev.commands@[j]);
                }
                assert forall|j: int| 0 <= j < n implies #[trigger] self.key(j) != identifier@ by {
                    assert(prev.contents@.contains_key(prev.key(j)));
                }
                assert forall|k: Seq<char>| #[trigger] self.contents@.contains_key(k) implies exists|
                    j: int,
                |
                    0 <= j < self.commands@.len() && #[trigger] self.key(j) == k by {
                    if k != identifier@ {
                        let j = choose|j: int| 0 <= j < prev.commands@.len() && prev.key(j) == k;
                        assert(self.key(j) == k);
                    } else {
                        assert(self.key(n) == k);
                    }
                }
            },
        }
    }

    /// Every (name, handler) pair of the registry, each name once; the
    /// order is that of first registration.
    pub fn get_commands(&self) -> (r: Vec<(String, H)>)
        requires
            self.wf(),
        ensures
            forall|i: int|
                0 <= i < r@.len() ==> self@.contains_key(#[trigger] r@[i].0@) && self@[r@[i].0@]
                    == r@[i].1,
            forall|i: int, j: int| 0 <= i < j < r@.len() ==> r@[i].0@ != r@[j].0@,
            forall|k: Seq<char>| #[trigger]
                self@.contains_key(k) ==> exists|i: int| 0 <= i < r@.len() && #[trigger] r@[i].0@ == k,
    {
        let mut r: Vec<(String, H)> = Vec::new();
        let mut i: usize = 0;
        while i < self.commands.len()
            invariant
                self.wf(),
                i <= self.commands@.len(),
                r@.len() == i,
                forall|j: int| 0 <= j < i ==> #[trigger] r@[j].0@ == self.key(j) && r@[j].1 == self.commands@[j].1,
            decreases self.commands@.len() - i,
        {
            let name = self.commands[i].0.clone();
            let h: H = self.commands[i].1;
            r.push((name, h));
            i = i + 1;
        }
        proof {
            assert forall|i: int, j: int| 0 <= i < j < r@.len() implies r@[i].0@ != r@[j].0@ by {
                assert(self.key(i) != self.key(j));
            }
            assert forall|k: Seq<char>| #[trigger] self@.contains_key(k) implies exists|i: int|
                0 <= i < r@.len() && #[trigger] r@[i].0@ == k by {
                let i = choose|i: int| 0 <= i < self.commands@.len() && self.key(i) == k;
                assert(r@[i].0@ == k);
            }
        }
        r
    }

    /// Resolves `identifier` and hands back the handler bound to it with
    /// `args` unchanged; an unknown name fails with `CommandNotFound`.
    pub fn call(&self, identifier: &str, args: Vec<String>) -> (r: Result<
        Invocation<H>,
        CommandError,
    >)
        requires
            self.wf(),
        ensures
            match r {
                Ok(inv) => selected(self@, identifier@) == Some(inv.handler) && inv.args@ == args@,
                Err(e) => selected(self@, identifier@) is None && e.kind == ErrorKind::CommandNotFound
                    && e.msg@ == not_found_msg(identifier@),
            },
    {
        match self.find(identifier) {
            Some(i) => {
                let h: H = self.commands[i].1;
                Ok(Invocation { handler: h, args })
            },
            None => {
                let mut msg = String::from_str("Command '");
                msg.append(identifier);
                msg.append("' not recognized.");
                Err(CommandError { kind: ErrorKind::CommandNotFound, msg })
            },
        }
    }

    /// Splits `input` into tokens, takes the first as the command name and
    /// the rest as its arguments, and resolves the name as `call` does. A
    /// line without tokens fails with `NoCommandSpecified`.
    pub fn handle(&self, input: &str) -> (r: Result<Invocation<H>, CommandError>)
        requires
            self.wf(),
        ensures
            tokens(input@).len() == 0 ==> (r matches Err(e) && e.kind
                == ErrorKind::NoCommandSpecified && e.msg@ == no_command_msg()),
            tokens(input@).len() > 0 ==> match r {
                Ok(inv) => selected(self@, tokens(input@)[0]) == Some(inv.handler) && views(
                    inv.args@,
                ) == tokens(input@).drop_first(),
                Err(e) => selected(self@, tokens(input@)[0]) is None && e.kind
                    == ErrorKind::CommandNotFound && e.msg@ == not_found_msg(tokens(input@)[0]),
            },
    {
        let mut toks = split_tokens(input);
        if toks.len() == 0 {
            return Err(CommandError::new(ErrorKind::NoCommandSpecified, "No command specified."));
        }
        let ghost all = toks@;
        let name = toks.remove(0);
        assert(views(toks@) =~= views(all).drop_first());
        self.call(name.as_str(), toks)
    }
}

/// A call of one name never runs the handler bound to another: what
/// `n1` resolves to does not change whatever is bound to `n2`, and when the
/// two handlers differ the one of `n2` is not selected.
pub proof fn lemma_call_ignores_other_names<H>(
    reg: Map<Seq<char>, H>,
    n1: Seq<char>,
    n2: Seq<char>,
    h2: H,
)
    requires
        n1 != n2,
    ensures
        selected(reg.insert(n2, h2), n1) == selected(reg, n1),
        reg.contains_key(n1) && reg.contains_key(n2) && reg[n1] != reg[n2] ==> selected(reg, n1)
            != Some(reg[n2]),
{
}

/// Registering a name twice keeps the second handler: a call of the name
/// then selects that handler only.
pub proof fn lemma_last_registration_wins<H>(reg: Map<Seq<char>, H>, n: Seq<char>, h1: H, h2: H)
    ensures
        selected(reg.insert(n, h1).insert(n, h2), n) == Some(h2),
{
}

} // verus!
