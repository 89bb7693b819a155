//! The command line of the child, in the 16-bit units that the system takes.

use vstd::prelude::*;

verus! {

/// The unit that parts two arguments: a space.
pub const SEPARATOR: u16 = 0x20;

/// The unit that ends a command line.
pub const TERMINATOR: u16 = 0;

/// The arguments in their order, as they stand, with one separator between
/// every two that follow each other. Nothing is quoted or escaped, and an
/// empty argument keeps its separators.
pub open spec fn joined(args: Seq<Seq<u16>>) -> Seq<u16>
    decreases args.len(),
{
    if args.len() == 0 {
        Seq::empty()
    } else if args.len() == 1 {
        args[0]
    } else {
        joined(args.drop_last()).push(SEPARATOR) + args.last()
    }
}

/// The number of units in all the arguments together.
pub open spec fn total_len(args: Seq<Seq<u16>>) -> nat
    decreases args.len(),
{
    if args.len() == 0 {
        0
    } else {
        total_len(args.drop_last()) + args.last().len()
    }
}

/// The place in the joined arguments at which argument `i` begins: behind the
/// arguments before it and the separator that follows them.
pub open spec fn offset(args: Seq<Seq<u16>>, i: int) -> int {
    if i <= 0 {
        0
    } else {
        (joined(args.take(i)).len() + 1) as int
    }
}

/// The command line for `args`: the arguments joined, then the terminator.
pub open spec fn spec_command_line(args: Seq<Seq<u16>>) -> Seq<u16> {
    joined(args).push(TERMINATOR)
}

/// Builds the command line that launches `args[0]` with the arguments after
/// it.
pub fn command_line(args: &Vec<Vec<u16>>) -> (line: Vec<u16>)
    ensures
        line@ == spec_command_line(args.deep_view()),
        line@.len() > 0,
        line@.last() == TERMINATOR,
{
    let mut line: Vec<u16> = Vec::new();
    let mut i: usize = 0;
    while i < args.len()
        invariant
            i <= args.len(),
            line@ == joined(args.deep_view().take(i as int)),
        decreases args.len() - i,
    {
        let arg = &args[i];
        if i > 0 {
            line.push(SEPARATOR);
        }
        let ghost start = line@;
        let mut j: usize = 0;
        while j < arg.len()
            invariant
                j <= arg.len(),
                line@ == start + arg@.take(j as int),
            decreases arg.len() - j,
        {
            line.push(arg[j]);
            assert(arg@.take(j + 1) == arg@.take(j as int).push(arg@[j as int]));
            j += 1;
        }
        proof {
            let taken = args.deep_view().take(i + 1);
            assert(taken.drop_last() == args.deep_view().take(i as int));
            assert(taken.last() == arg@);
            assert(arg@.take(arg.len() as int) == arg@);
            assert(i == 0 ==> start + arg@ == arg@);
        }
        i += 1;
    }
    assert(args.deep_view().take(args.len() as int) == args.deep_view());
    line.push(TERMINATOR);
    line
}

/// Joining one argument more appends exactly one separator and that
/// argument, as it stands.
pub proof fn lemma_joined_appends(args: Seq<Seq<u16>>, arg: Seq<u16>)
    requires
        args.len() > 0,
    ensures
        joined(args.push(arg)) == joined(args).push(SEPARATOR) + arg,
{
    assert(args.push(arg).drop_last() == args);
}

/// The joined arguments hold the units of all arguments and one separator
/// for every argument but the first, so a command line is longer by one.
pub proof fn lemma_joined_len(args: Seq<Seq<u16>>)
    ensures
        args.len() == 0 ==> joined(args).len() == 0,
        args.len() > 0 ==> joined(args).len() == total_len(args) + args.len() - 1,
        spec_command_line(args).len() == joined(args).len() + 1,
    decreases args.len(),
{
    if args.len() == 1 {
        assert(total_len(args.drop_last()) == 0);
    } else if args.len() > 1 {
        lemma_joined_len(args.drop_last());
    }
}

/// Every argument stands in the joined arguments as it is, at its place: the
/// first at the start, each later one right behind the one before it and one
/// separator.
pub proof fn lemma_joined_holds_each_argument(args: Seq<Seq<u16>>, i: int)
    requires
        0 <= i < args.len(),
    ensures
        offset(args, i) + args[i].len() <= joined(args).len(),
        joined(args).subrange(offset(args, i), offset(args, i) + args[i].len()) == args[i],
        i > 0 ==> offset(args, i) == offset(args, i - 1) + args[i - 1].len() + 1,
        i > 0 ==> joined(args)[offset(args, i) - 1] == SEPARATOR,
    decreases args.len(),
{
    let front = args.drop_last();
    if i > 0 {
        let before = args.take(i);
        assert(before.len() == i);
        assert(before.last() == args[i - 1]);
        assert(before.drop_last() == args.take(i - 1));
        if i > 1 {
            assert(joined(before) == joined(args.take(i - 1)).push(SEPARATOR) + args[i - 1]);
        } else {
            assert(joined(before) == args[0]);
        }
    }
    if i == args.len() - 1 {
        assert(args.take(i) == front);
        if i > 0 {
            assert(joined(args) == joined(front).push(SEPARATOR) + args[i]);
        }
        assert(joined(args).subrange(offset(args, i), offset(args, i) + args[i].len())
            == args[i]);
    } else {
        assert(front.take(i) == args.take(i));
        assert(front[i] == args[i]);
        lemma_joined_holds_each_argument(front, i);
        assert(joined(args) == joined(front).push(SEPARATOR) + args.last());
        assert(joined(args).subrange(offset(args, i), offset(args, i) + args[i].len())
            == joined(front).subrange(offset(front, i), offset(front, i) + front[i].len()));
    }
}

/// Where no argument holds a terminator, the joined arguments hold none
/// either: the terminator of a command line is its last unit and no other.
pub proof fn lemma_terminator_stands_last(args: Seq<Seq<u16>>)
    requires
        forall|i: int, j: int|
            0 <= i < args.len() && 0 <= j < args[i].len() ==> #[trigger] args[i][j] != TERMINATOR,
    ensures
        forall|k: int| 0 <= k < joined(args).len() ==> #[trigger] joined(args)[k] != TERMINATOR,
        forall|k: int|
            0 <= k < spec_command_line(args).len() ==> (#[trigger] spec_command_line(args)[k]
                == TERMINATOR <==> k == spec_command_line(args).len() - 1),
    decreases args.len(),
{
    if args.len() > 1 {
        let front = args.drop_last();
        assert forall|i: int, j: int| 0 <= i < front.len() && 0 <= j < front[i].len() implies
            #[trigger] front[i][j] != TERMINATOR by {
            assert(front[i][j] == args[i][j]);
        }
        lemma_terminator_stands_last(front);
        assert forall|k: int| 0 <= k < joined(args).len() implies #[trigger] joined(args)[k]
            != TERMINATOR by {
            if k < joined(front).len() {
                assert(joined(args)[k] == joined(front)[k]);
            } else if k > joined(front).len() {
                assert(joined(args)[k] == args.last()[k - joined(front).len() - 1]);
                assert(args[args.len() - 1][k - joined(front).len() - 1] != TERMINATOR);
            }
        }
    } else if args.len() == 1 {
        assert forall|k: int| 0 <= k < joined(args).len() implies #[trigger] joined(args)[k]
            != TERMINATOR by {
            assert(args[0][k] != TERMINATOR);
        }
    }
}

} // verus!
