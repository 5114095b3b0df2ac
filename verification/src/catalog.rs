//! The catalog: command definitions and the operations on an ordered list of
//! them (append, remove by name, filter by category, list the categories).

use vstd::prelude::*;

verus! {

/// The closed discriminator of a command: a generic shell invocation, or a
/// named composite routine looked up in the custom-command registry.
#[derive(Clone, Copy, Debug, PartialEq, Eq, Structural)]
pub enum CommandType {
    Shell,
    Custom,
}

/// The mathematical value of an [`UpdateCommand`]: every field as a sequence
/// of characters, plus the kind.
#[verifier::ext_equal]
pub ghost struct CmdView {
    pub name: Seq<char>,
    pub command: Seq<char>,
    pub command_type: CommandType,
    pub icon: Seq<char>,
    pub description: Seq<char>,
    pub category: Seq<char>,
}

/// One catalog entry: a runnable maintenance action and its display metadata.
#[derive(Debug)]
pub struct UpdateCommand {
    pub name: String,
    pub command: String,
    pub command_type: CommandType,
    pub icon: String,
    pub description: String,
    pub category: String,
}

impl View for UpdateCommand {
    type V = CmdView;

    open spec fn view(&self) -> CmdView {
        CmdView {
            name: self.name@,
            command: self.command@,
            command_type: self.command_type,
            icon: self.icon@,
            description: self.description@,
            category: self.category@,
        }
    }
}

/// The views of every entry of a catalog, in order.
pub open spec fn views(s: Seq<UpdateCommand>) -> Seq<CmdView> {
    s.map_values(|c: UpdateCommand| c@)
}

impl UpdateCommand {
    /// Builds an entry from borrowed text; every field keeps the characters
    /// it was given.
    pub fn new(
        name: &str,
        command: &str,
        command_type: CommandType,
        icon: &str,
        description: &str,
        category: &str,
    ) -> (r: Self)
        ensures
            r@ == (CmdView {
                name: name@,
                command: command@,
                command_type: command_type,
                icon: icon@,
                description: description@,
                category: category@,
            }),
    {
        Self {
            name: name.to_owned(),
            command: command.to_owned(),
            command_type,
            icon: icon.to_owned(),
            description: description.to_owned(),
            category: category.to_owned(),
        }
    }

    /// A copy of the entry with the same value.
    pub fn duplicate(&self) -> (r: Self)
        ensures
            r@ == self@,
    {
        Self {
            name: self.name.clone(),
            command: self.command.clone(),
            command_type: self.command_type,
            icon: self.icon.clone(),
            description: self.description.clone(),
            category: self.category.clone(),
        }
    }
}

/// The predicate that `remove_command` keeps: the entry's name differs from
/// the removed one.
pub open spec fn keeps(name: Seq<char>) -> spec_fn(UpdateCommand) -> bool {
    |c: UpdateCommand| c.name@ != name
}

/// The predicate of `get_commands_by_category`: the entry's category matches
/// exactly.
pub open spec fn in_category(category: Seq<char>) -> spec_fn(UpdateCommand) -> bool {
    |c: UpdateCommand| c.category@ == category
}

/// Extending a prefix by one element extends its filtered image by that
/// element exactly when the predicate holds of it.
proof fn lemma_filter_take_step<A>(s: Seq<A>, pred: spec_fn(A) -> bool, i: int)
    requires
        0 <= i < s.len(),
    ensures
        s.subrange(0, i + 1).filter(pred) == if pred(s[i]) {
            s.subrange(0, i).filter(pred).push(s[i])
        } else {
            s.subrange(0, i).filter(pred)
        },
{
    reveal(Seq::filter);
    let q = s.subrange(0, i + 1);
    assert(q.drop_last() =~= s.subrange(0, i));
    assert(q.last() == s[i]);
}

/// Appends a command at the end of the catalog; nothing else moves.
pub fn add_command(commands: &mut Vec<UpdateCommand>, command: UpdateCommand)
    ensures
        final(commands)@ == old(commands)@.push(command),
{
    commands.push(command);
}

/// Removes every entry whose name matches exactly; the survivors keep their
/// relative order. Removing a name that is absent changes nothing.
#[verifier::loop_isolation(false)]
#[verifier::rlimit(30)]
pub fn remove_command(commands: &mut Vec<UpdateCommand>, name: &str)
    ensures
        final(commands)@ == old(commands)@.filter(keeps(name@)),
{
    let ghost orig = commands@;
    let ghost pred = keeps(name@);
    let mut j: usize = 0;
    let ghost mut k: int = 0;
    proof {
        reveal(Seq::filter);
        assert(orig.subrange(0, 0) =~= Seq::<UpdateCommand>::empty());
        assert(orig.skip(0) =~= orig);
        assert(commands@ =~= orig.subrange(0, 0).filter(pred) + orig.skip(0));
    }
    loop
        invariant
            0 <= k <= orig.len(),
            commands@ == orig.subrange(0, k).filter(pred) + orig.skip(k),
            j == orig.subrange(0, k).filter(pred).len(),
        decreases orig.len() - k,
    {
        if j >= commands.len() {
            proof {
                assert(orig.skip(k).len() == 0);
                assert(k == orig.len());
                assert(orig.subrange(0, k) =~= orig);
            }
            break;
        }
        proof {
            assert(orig.skip(k).len() > 0);
            assert(k < orig.len());
            assert(commands@[j as int] == orig.skip(k)[0]);
            assert(orig.skip(k)[0] == orig[k]);
            lemma_filter_take_step(orig, pred, k);
        }
        let matches = crate::text::str_eq(commands[j].name.as_str(), name);
        if matches {
            commands.remove(j);
            proof {
                assert(commands@ =~= orig.subrange(0, k + 1).filter(pred) + orig.skip(k + 1));
            }
        } else {
            j = j + 1;
            proof {
                assert(commands@ =~= orig.subrange(0, k + 1).filter(pred) + orig.skip(k + 1));
            }
        }
        proof {
            k = k + 1;
        }
    }
}

/// The entries whose category matches exactly, borrowed, in catalog order.
#[verifier::loop_isolation(false)]
pub fn get_commands_by_category<'a>(commands: &'a Vec<UpdateCommand>, category: &str) -> (r: Vec<
    &'a UpdateCommand,
>)
    ensures
        r@.map_values(|c: &UpdateCommand| *c) == commands@.filter(in_category(category@)),
{
    let ghost pred = in_category(category@);
    let mut r: Vec<&'a UpdateCommand> = Vec::new();
    let mut i: usize = 0;
    proof {
        reveal(Seq::filter);
        assert(commands@.subrange(0, 0) =~= Seq::<UpdateCommand>::empty());
        assert(r@.map_values(|c: &UpdateCommand| *c) =~= commands@.subrange(0, 0).filter(pred));
    }
    while i < commands.len()
        invariant
            i <= commands@.len(),
            r@.map_values(|c: &UpdateCommand| *c) == commands@.subrange(0, i as int).filter(pred),
        decreases commands@.len() - i,
    {
        proof {
            lemma_filter_take_step(commands@, pred, i as int);
        }
        let c = &commands[i];
        if crate::text::str_eq(c.category.as_str(), category) {
            r.push(c);
            proof {
                assert(r@.map_values(|c: &UpdateCommand| *c) =~= commands@.subrange(
                    0,
                    i + 1,
                ).filter(pred));
            }
        } else {
            proof {
                assert(r@.map_values(|c: &UpdateCommand| *c) =~= commands@.subrange(
                    0,
                    i + 1,
                ).filter(pred));
            }
        }
        i = i + 1;
    }
    proof {
        assert(commands@.subrange(0, commands@.len() as int) =~= commands@);
    }
    r
}

/// Some catalog entry carries this category.
pub open spec fn has_category(s: Seq<UpdateCommand>, cat: Seq<char>) -> bool {
    exists|i: int| 0 <= i < s.len() && s[i].category@ == cat
}

/// The list holds a string with these characters.
pub open spec fn listed(r: Seq<String>, cat: Seq<char>) -> bool {
    exists|j: int| 0 <= j < r.len() && r[j]@ == cat
}

/// Every pair of positions is strictly ordered, so no string appears twice.
pub open spec fn sorted_distinct(r: Seq<String>) -> bool {
    forall|x: int, y: int| 0 <= x < y < r.len() ==> crate::text::lex_lt(#[trigger] r[x]@, #[trigger] r[y]@)
}

/// The first position whose entry is not below `cat`; everything before it is
/// strictly below.
#[verifier::loop_isolation(false)]
fn lower_bound(r: &Vec<String>, cat: &str) -> (p: usize)
    ensures
        p <= r@.len(),
        forall|k: int| 0 <= k < p ==> crate::text::lex_lt(#[trigger] r@[k]@, cat@),
        p < r@.len() ==> !crate::text::lex_lt(r@[p as int]@, cat@),
{
    let mut p: usize = 0;
    loop
        invariant
            p <= r@.len(),
            forall|k: int| 0 <= k < p ==> crate::text::lex_lt(#[trigger] r@[k]@, cat@),
        decreases r@.len() - p,
    {
        if p >= r.len() {
            return p;
        }
        if !crate::text::str_lt(r[p].as_str(), cat) {
            return p;
        }
        p = p + 1;
    }
}

/// The set of category strings present in the catalog, sorted
/// lexicographically, each exactly once.
#[verifier::loop_isolation(false)]
pub fn get_all_categories(commands: &Vec<UpdateCommand>) -> (r: Vec<String>)
    ensures
        sorted_distinct(r@),
        forall|j: int| 0 <= j < r@.len() ==> has_category(commands@, #[trigger] r@[j]@),
        forall|i: int| 0 <= i < commands@.len() ==> listed(r@, #[trigger] commands@[i].category@),
{
    let mut r: Vec<String> = Vec::new();
    let mut i: usize = 0;
    while i < commands.len()
        invariant
            i <= commands@.len(),
            sorted_distinct(r@),
            forall|j: int| 0 <= j < r@.len() ==> has_category(commands@, #[trigger] r@[j]@),
            forall|ii: int| 0 <= ii < i ==> listed(r@, #[trigger] commands@[ii].category@),
        decreases commands@.len() - i,
    {
        let cat = &commands[i].category;
        let p = lower_bound(&r, cat.as_str());
        let mut already = false;
        if p < r.len() {
            already = crate::text::str_eq(r[p].as_str(), cat.as_str());
        }
        if !already {
            let ghost r_old = r@;
            r.insert(p, cat.clone());
            proof {
                assert forall|k: int| 0 <= k < r@.len() implies r@[k] == (if k < p {
                    r_old[k]
                } else if k == p {
                    r@[p as int]
                } else {
                    r_old[k - 1]
                }) by {}
                assert(r@[p as int]@ == cat@);
                // everything at or after the insertion point is strictly above
                assert forall|k: int| p <= k < r_old.len() implies crate::text::lex_lt(
                    cat@,
                    #[trigger] r_old[k]@,
                ) by {
                    assert(r_old[p as int]@ != cat@);
                    crate::text::lemma_lex_lt_connex(r_old[p as int]@, cat@);
                    if k > p {
                        crate::text::lemma_lex_lt_trans(cat@, r_old[p as int]@, r_old[k]@);
                    }
                }
                assert(sorted_distinct(r@));
                // earlier commands stay listed: their witness shifts past p
                assert forall|ii: int| 0 <= ii < i + 1 implies listed(
                    r@,
                    #[trigger] commands@[ii].category@,
                ) by {
                    if ii < i {
                        let c = commands@[ii].category@;
                        let j = choose|j: int| 0 <= j < r_old.len() && r_old[j]@ == c;
                        if j < p {
                            assert(r@[j]@ == c);
                        } else {
                            assert(r@[j + 1]@ == c);
                        }
                    } else {
                        assert(r@[p as int]@ == commands@[ii].category@);
                    }
                }
            }
        } else {
            proof {
                assert(r@[p as int]@ == commands@[i as int].category@);
            }
        }
        i = i + 1;
    }
    r
}

/// A strictly sorted list of strings holds no two with the same characters:
/// the order is irreflexive, so equal entries could not both stand in it.
pub proof fn lemma_sorted_distinct_no_repeats(r: Seq<String>)
    requires
        sorted_distinct(r),
    ensures
        forall|x: int, y: int| 0 <= x < r.len() && 0 <= y < r.len() && x != y ==> (#[trigger] r[x]@)
            != (#[trigger] r[y]@),
{
    assert forall|x: int, y: int|
        0 <= x < r.len() && 0 <= y < r.len() && x != y implies (#[trigger] r[x]@) != (
    #[trigger] r[y]@) by {
        crate::text::lemma_lex_lt_irrefl(r[x]@);
        if x < y {
            assert(crate::text::lex_lt(r[x]@, r[y]@));
        } else {
            assert(crate::text::lex_lt(r[y]@, r[x]@));
        }
    }
}

} // verus!
