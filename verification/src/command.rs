//! The command to run: a program and its arguments.

use vstd::prelude::*;
use vstd::string::StringExecFns;

verus! {

/// A program name followed by the arguments to hand to it, in order.
/// There is always a program name.
#[derive(Debug, PartialEq, Eq)]
pub struct Command {
    words: Vec<String>,
}

/// The texts of a list of strings.
pub open spec fn texts(words: Seq<String>) -> Seq<Seq<char>> {
    Seq::new(words.len(), |i: int| words[i]@)
}

/// The words joined into one line, a single blank between neighbours.
pub open spec fn joined(words: Seq<Seq<char>>) -> Seq<char>
    decreases words.len(),
{
    if words.len() == 0 {
        Seq::empty()
    } else if words.len() == 1 {
        words[0]
    } else {
        joined(words.drop_last()) + seq![' '] + words.last()
    }
}

impl View for Command {
    type V = Seq<Seq<char>>;

    /// The words of the command: the program name first.
    closed spec fn view(&self) -> Seq<Seq<char>> {
        texts(self.words@)
    }
}

impl Command {
    #[verifier::type_invariant]
    spec fn has_program(self) -> bool {
        self.words.len() > 0
    }

    /// The command made of `words`, unless there are none.
    pub fn new(words: Vec<String>) -> (command: Option<Command>)
        ensures
            words.len() == 0 <==> command is None,
            command matches Some(c) ==> c@ == texts(words@),
    {
        if words.len() == 0 {
            None
        } else {
            Some(Command { words })
        }
    }

    /// The program to run.
    pub fn program(&self) -> (name: &String)
        ensures
            self@.len() > 0,
            name@ == self@[0],
    {
        proof {
            use_type_invariant(self);
        }
        &self.words[0]
    }

    /// The arguments for the program, as given.
    pub fn arguments(&self) -> (args: Vec<String>)
        ensures
            self@.len() > 0,
            texts(args@) == self@.skip(1),
    {
        proof {
            use_type_invariant(self);
        }
        let mut args: Vec<String> = Vec::new();
        let n: usize = self.words.len();
        let mut i: usize = 1;
        while i < n
            invariant
                1 <= i <= n,
                n == self.words.len(),
                args.len() == i - 1,
                forall|j: int| 0 <= j < args.len() ==> args[j]@ == self.words[j + 1]@,
            decreases n - i,
        {
            args.push(self.words[i].clone());
            i += 1;
        }
        assert(texts(args@) =~= self@.skip(1));
        args
    }

    /// The whole command on one line.
    pub fn line(&self) -> (text: String)
        ensures
            text@ == joined(self@),
    {
        proof {
            use_type_invariant(self);
        }
        let mut text = String::new();
        let n: usize = self.words.len();
        let mut i: usize = 0;
        assert(self@.take(0) =~= Seq::<Seq<char>>::empty());
        while i < n
            invariant
                i <= n,
                n == self.words.len(),
                text@ == joined(self@.take(i as int)),
            decreases n - i,
        {
            if i > 0 {
                text.push(' ');
            }
            text.append(self.words[i].as_str());
            proof {
                let now = self@.take(i + 1);
                assert(now.drop_last() =~= self@.take(i as int));
                assert(now.last() == self.words[i as int]@);
                if i == 0 {
                    assert(text@ =~= now[0]);
                }
            }
            i += 1;
        }
        assert(self@.take(n as int) =~= self@);
        text
    }
}

} // verus!
