use vstd::prelude::*;
use vstd::string::*;

verus! {

/// An argument is a flag when it starts with `-`.
pub open spec fn spec_is_flag(arg: Seq<char>) -> bool {
    arg.len() > 0 && arg[0] == '-'
}

/// The flags among `args`, in their order.
pub open spec fn flags_of(args: Seq<Seq<char>>) -> Seq<Seq<char>>
    decreases args.len(),
{
    if args.len() == 0 {
        Seq::empty()
    } else if spec_is_flag(args.last()) {
        flags_of(args.drop_last()).push(args.last())
    } else {
        flags_of(args.drop_last())
    }
}

/// The arguments among `args` that are not flags (package names, paths), in their order.
pub open spec fn modifiers_of(args: Seq<Seq<char>>) -> Seq<Seq<char>>
    decreases args.len(),
{
    if args.len() == 0 {
        Seq::empty()
    } else if !spec_is_flag(args.last()) {
        modifiers_of(args.drop_last()).push(args.last())
    } else {
        modifiers_of(args.drop_last())
    }
}

/// Every argument after the operation is either a flag or a modifier, never
/// both and never lost: the flags all start with `-`, the modifiers none do,
/// and together they hold each argument exactly as often as the command line.
pub proof fn lemma_flags_and_modifiers_partition(args: Seq<Seq<char>>)
    ensures
        flags_of(args).len() + modifiers_of(args).len() == args.len(),
        forall|i: int| 0 <= i < flags_of(args).len() ==> spec_is_flag(#[trigger] flags_of(args)[i]),
        forall|i: int| 0 <= i < modifiers_of(args).len() ==> !spec_is_flag(#[trigger] modifiers_of(args)[i]),
        flags_of(args).to_multiset().add(modifiers_of(args).to_multiset()) =~= args.to_multiset(),
    decreases args.len(),
{
    broadcast use vstd::seq_lib::group_to_multiset_ensures;
    if args.len() > 0 {
        let init = args.drop_last();
        lemma_flags_and_modifiers_partition(init);
        assert(args =~= init.push(args.last()));
        if spec_is_flag(args.last()) {
            assert forall|i: int| 0 <= i < flags_of(args).len() implies spec_is_flag(#[trigger] flags_of(args)[i]) by {
                if i < flags_of(init).len() {
                    assert(flags_of(args)[i] == flags_of(init)[i]);
                }
            }
        } else {
            assert forall|i: int| 0 <= i < modifiers_of(args).len() implies !spec_is_flag(#[trigger] modifiers_of(args)[i]) by {
                if i < modifiers_of(init).len() {
                    assert(modifiers_of(args)[i] == modifiers_of(init)[i]);
                }
            }
        }
    }
}

/// An argument that begins with `-` is a flag, whatever follows; an argument
/// that begins with any other character, and the empty argument, are not.
pub proof fn lemma_flag_is_leading_dash(c: char, rest: Seq<char>)
    ensures
        spec_is_flag(seq![c] + rest) <==> c == '-',
        !spec_is_flag(Seq::<char>::empty()),
{
    assert((seq![c] + rest)[0] == c);
}

/// Where each argument after the operation goes: one that begins with `-`
/// is among the flags and not among the modifiers; any other one (a package
/// name, a path such as `./repo`, the empty argument) is among the modifiers
/// and not among the flags.
pub proof fn lemma_arguments_sorted_by_leading_dash(args: Seq<Seq<char>>, i: int)
    requires
        0 <= i < args.len(),
    ensures
        (args[i].len() > 0 && args[i][0] == '-') ==> flags_of(args).contains(args[i]) && !modifiers_of(args).contains(args[i]),
        !(args[i].len() > 0 && args[i][0] == '-') ==> modifiers_of(args).contains(args[i]) && !flags_of(args).contains(args[i]),
    decreases args.len(),
{
    lemma_flags_and_modifiers_partition(args);
    let a = args[i];
    if i == args.len() - 1 {
        if spec_is_flag(a) {
            assert(flags_of(args).last() == a);
        } else {
            assert(modifiers_of(args).last() == a);
        }
    } else {
        lemma_arguments_sorted_by_leading_dash(args.drop_last(), i);
        assert(args.drop_last()[i] == a);
        let fi = flags_of(args.drop_last());
        let mi = modifiers_of(args.drop_last());
        if spec_is_flag(a) {
            let k = choose|k: int| 0 <= k < fi.len() && fi[k] == a;
            assert(flags_of(args)[k] == a);
        } else {
            let k = choose|k: int| 0 <= k < mi.len() && mi[k] == a;
            assert(modifiers_of(args)[k] == a);
        }
    }
    if spec_is_flag(a) {
        if modifiers_of(args).contains(a) {
            let k = choose|k: int| 0 <= k < modifiers_of(args).len() && modifiers_of(args)[k] == a;
            assert(!spec_is_flag(modifiers_of(args)[k]));
        }
    } else {
        if flags_of(args).contains(a) {
            let k = choose|k: int| 0 <= k < flags_of(args).len() && flags_of(args)[k] == a;
            assert(spec_is_flag(flags_of(args)[k]));
        }
    }
}

/// Whether a command-line argument is a flag (starts with `-`).
pub fn is_flag(arg: &str) -> (r: bool)
    ensures
        r == spec_is_flag(arg@),
{
    !arg.is_empty() && arg.get_char(0) == '-'
}

/// A command line split into the operation, its flags and its other arguments.
pub struct Invocation {
    /// The first argument, naming what to do (`build`, `query`, ...).
    pub oper: String,
    /// The later arguments that start with `-`, in their order.
    pub flags: Vec<String>,
    /// The later arguments that do not start with `-`, in their order.
    pub modifiers: Vec<String>,
}

/// Splits the command line (without the program name). An empty command line
/// gives `None`: there is nothing to do but print the usage line.
pub fn parse_invocation(args: &Vec<String>) -> (r: Option<Invocation>)
    ensures
        r is None <==> args@.len() == 0,
        r matches Some(inv) ==> {
            &&& inv.oper@ == args@[0]@
            &&& inv.flags.deep_view() == flags_of(args.deep_view().drop_first())
            &&& inv.modifiers.deep_view() == modifiers_of(args.deep_view().drop_first())
        },
{
    if args.len() == 0 {
        return None;
    }
    let ghost rest = args.deep_view().drop_first();
    let mut flags: Vec<String> = Vec::new();
    let mut modifiers: Vec<String> = Vec::new();
    let mut i: usize = 1;
    while i < args.len()
        invariant
            1 <= i <= args@.len(),
            rest == args.deep_view().drop_first(),
            flags.deep_view() == flags_of(rest.take(i - 1)),
            modifiers.deep_view() == modifiers_of(rest.take(i - 1)),
        decreases args@.len() - i,
    {
        let arg = &args[i];
        proof {
            assert(rest.take(i as int).drop_last() =~= rest.take(i - 1));
            assert(rest.take(i as int).last() == arg@);
        }
        if is_flag(arg.as_str()) {
            flags.push(arg.clone());
        } else {
            modifiers.push(arg.clone());
        }
        proof {
            assert(flags.deep_view() =~= flags_of(rest.take(i as int)));
            assert(modifiers.deep_view() =~= modifiers_of(rest.take(i as int)));
        }
        i = i + 1;
    }
    proof {
        assert(rest.take(i - 1) =~= rest);
    }
    Some(Invocation { oper: args[0].clone(), flags, modifiers })
}


/// What a command line asks for, by its first argument.
#[derive(PartialEq, Eq, Structural, Debug, Clone, Copy)]
pub enum Operation {
    /// `init-repo <path>`: create a new repository.
    InitRepo,
    /// `build <package>`: build a source package and add it to the database.
    Build,
    /// `new-srcpkg <package>`: create a new source package from templates.
    NewSrcPkg,
    /// `query <package>`: look a package up in the database.
    Query,
    /// `remove <package>`: remove a package from the database.
    Remove,
    /// Anything else: print the help text.
    Help,
}

/// The operation that an operation name selects.
pub open spec fn spec_operation(name: Seq<char>) -> Operation {
    if name == "init-repo"@ {
        Operation::InitRepo
    } else if name == "build"@ {
        Operation::Build
    } else if name == "new-srcpkg"@ {
        Operation::NewSrcPkg
    } else if name == "query"@ {
        Operation::Query
    } else if name == "remove"@ {
        Operation::Remove
    } else {
        Operation::Help
    }
}

/// Only the exact operation names select an operation; every other name,
/// however close (`install`, `rebuild`, `Build`, `build ` ...), selects the help.
pub proof fn lemma_only_exact_names_select(name: Seq<char>)
    ensures
        spec_operation(name) == Operation::InitRepo <==> name == "init-repo"@,
        spec_operation(name) == Operation::Build <==> name == "build"@,
        spec_operation(name) == Operation::NewSrcPkg <==> name == "new-srcpkg"@,
        spec_operation(name) == Operation::Query <==> name == "query"@,
        spec_operation(name) == Operation::Remove <==> name == "remove"@,
        spec_operation(name) == Operation::Help <==> (name != "init-repo"@ && name != "build"@
            && name != "new-srcpkg"@ && name != "query"@ && name != "remove"@),
{
    reveal_strlit("init-repo");
    reveal_strlit("build");
    reveal_strlit("new-srcpkg");
    reveal_strlit("query");
    reveal_strlit("remove");
    assert("init-repo"@.len() == 9);
    assert("build"@.len() == 5);
    assert("new-srcpkg"@.len() == 10);
    assert("query"@.len() == 5);
    assert("remove"@.len() == 6);
    assert("build"@[0] != "query"@[0]);
}

impl Operation {
    /// Selects the operation named by the first command-line argument.
    pub fn from_name(name: &String) -> (r: Operation)
        ensures
            r == spec_operation(name@),
    {
        if *name == String::from_str("init-repo") {
            Operation::InitRepo
        } else if *name == String::from_str("build") {
            Operation::Build
        } else if *name == String::from_str("new-srcpkg") {
            Operation::NewSrcPkg
        } else if *name == String::from_str("query") {
            Operation::Query
        } else if *name == String::from_str("remove") {
            Operation::Remove
        } else {
            Operation::Help
        }
    }
}

} // verus!
