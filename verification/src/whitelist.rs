//! Whitelist of OS commands the executor may run.
//!
//! A whitelist is an association from command names to entries; names are
//! unique. Besides membership, an entry carries the argument policy of its
//! command: an argument-count bound and the patterns an argument must
//! match.

use crate::text::str_eq;
use vstd::prelude::*;

verus! {

/// Errors of the whitelist API.
#[derive(Debug)]
pub enum WhitelistError {
    /// The command is not whitelisted.
    CommandNotFound(String),
    /// A whitelist could not be loaded.
    LoadFailed(String),
    /// A serialized whitelist was malformed.
    InvalidFormat(String),
}

/// Policy entry for one command.
#[derive(Debug, Clone)]
pub struct WhitelistEntry {
    /// Command name.
    pub command: String,
    /// Human-readable description.
    pub description: Option<String>,
    /// Maximum number of arguments, when bounded.
    pub max_args: Option<usize>,
    /// Patterns an argument must match, when restricted.
    pub allowed_arg_patterns: Option<Vec<String>>,
    /// Whether the command needs elevated rights.
    pub requires_sudo: bool,
}

/// Whether some pair carries the name.
pub open spec fn names_contain(entries: Seq<(String, WhitelistEntry)>, k: Seq<char>) -> bool {
    exists|i: int| 0 <= i < entries.len() && (#[trigger] entries[i]).0@ == k
}

/// The entry stored under a name.
pub open spec fn entry_under(entries: Seq<(String, WhitelistEntry)>, k: Seq<char>) -> WhitelistEntry {
    entries[choose|i: int| 0 <= i < entries.len() && (#[trigger] entries[i]).0@ == k].1
}

/// Every name occurs at most once.
pub open spec fn unique_names(entries: Seq<(String, WhitelistEntry)>) -> bool {
    forall|i: int, j: int|
        0 <= i < j < entries.len() ==> (#[trigger] entries[i]).0@ != (#[trigger] entries[j]).0@
}

/// With unique names, the entry under a name is the one at any index that
/// carries it.
proof fn lemma_entry_under(entries: Seq<(String, WhitelistEntry)>, i: int, k: Seq<char>)
    requires
        unique_names(entries),
        0 <= i < entries.len(),
        entries[i].0@ == k,
    ensures
        names_contain(entries, k),
        entry_under(entries, k) == entries[i].1,
{
    let j = choose|j: int| 0 <= j < entries.len() && (#[trigger] entries[j]).0@ == k;
    if i < j {
        assert(entries[i].0@ != entries[j].0@);
    } else if j < i {
        assert(entries[j].0@ != entries[i].0@);
    }
}

/// Command whitelist: unique names, each with its policy entry.
pub struct CommandWhitelist {
    entries: Vec<(String, WhitelistEntry)>,
}

impl CommandWhitelist {
    /// Names are unique.
    pub closed spec fn wf(&self) -> bool {
        unique_names(self.entries@)
    }

    /// The stored pairs, in insertion order.
    pub closed spec fn spec_entries(&self) -> Seq<(String, WhitelistEntry)> {
        self.entries@
    }

    /// Whether a name is whitelisted.
    pub open spec fn spec_contains(&self, k: Seq<char>) -> bool {
        names_contain(self.spec_entries(), k)
    }

    /// The entry stored under a whitelisted name.
    pub open spec fn spec_entry(&self, k: Seq<char>) -> WhitelistEntry {
        entry_under(self.spec_entries(), k)
    }

    /// The number of whitelisted commands.
    pub open spec fn spec_len(&self) -> int {
        self.spec_entries().len() as int
    }

    /// Create an empty whitelist.
    pub fn new() -> (r: CommandWhitelist)
        ensures
            r.wf(),
            r.spec_len() == 0,
            forall|k: Seq<char>| !r.spec_contains(k),
    {
        CommandWhitelist { entries: Vec::new() }
    }

    /// Find the index a name is stored at.
    fn find_index(&self, name: &str) -> (r: Option<usize>)
        requires
            self.wf(),
        ensures
            r matches Some(i) ==> i < self.spec_entries().len() && self.spec_entries()[i as int].0@
                == name@,
            r is None ==> !self.spec_contains(name@),
    {
        let n = self.entries.len();
        let mut i: usize = 0;
        while i < n
            invariant
                i <= n,
                n == self.entries@.len(),
                forall|j: int| 0 <= j < i ==> (#[trigger] self.entries@[j]).0@ != name@,
            decreases n - i,
        {
            if str_eq(self.entries[i].0.as_str(), name) {
                return Some(i);
            }
            i = i + 1;
        }
        None
    }

    /// Add a command, replacing the entry of a name already present.
    pub fn add_command(&mut self, name: &str, entry: WhitelistEntry)
        requires
            old(self).wf(),
        ensures
            final(self).wf(),
            final(self).spec_contains(name@),
            final(self).spec_entry(name@) == entry,
            forall|k: Seq<char>|
                k != name@ ==> #[trigger] final(self).spec_contains(k) == old(self).spec_contains(
                    k,
                ),
            forall|k: Seq<char>|
                k != name@ && old(self).spec_contains(k) ==> #[trigger] final(self).spec_entry(k)
                    == old(self).spec_entry(k),
            final(self).spec_len() == old(self).spec_len() + if old(self).spec_contains(name@) {
                0int
            } else {
                1int
            },
    {
        let key: String = name.to_owned();
        match self.find_index(name) {
            Some(i) => {
                self.entries.set(i, (key, entry));
                proof {
                    let es = self.entries@;
                    let old_es = old(self).entries@;
                    assert forall|a: int, b: int| 0 <= a < b < es.len() implies (
                    #[trigger] es[a]).0@ != (#[trigger] es[b]).0@ by {
                        assert(old_es[a].0@ != old_es[b].0@);
                    }
                    lemma_entry_under(es, i as int, name@);
                    assert forall|k: Seq<char>| k != name@ implies #[trigger] names_contain(
                        es,
                        k,
                    ) == names_contain(old_es, k) by {
                        if names_contain(es, k) {
                            let w = choose|w: int|
                                0 <= w < es.len() && (#[trigger] es[w]).0@ == k;
                            assert(old_es[w].0@ == k);
                        }
                        if names_contain(old_es, k) {
                            let w = choose|w: int|
                                0 <= w < old_es.len() && (#[trigger] old_es[w]).0@ == k;
                            assert(es[w].0@ == k);
                        }
                    }
                    assert forall|k: Seq<char>|
                        k != name@ && names_contain(old_es, k) implies #[trigger] entry_under(
                        es,
                        k,
                    ) == entry_under(old_es, k) by {
                        let w = choose|w: int|
                            0 <= w < old_es.len() && (#[trigger] old_es[w]).0@ == k;
                        assert(es[w].0@ == k);
                        lemma_entry_under(es, w, k);
                        lemma_entry_under(old_es, w, k);
                    }
                }
            },
            None => {
                self.entries.push((key, entry));
                proof {
                    let es = self.entries@;
                    let old_es = old(self).entries@;
                    assert forall|a: int, b: int| 0 <= a < b < es.len() implies (
                    #[trigger] es[a]).0@ != (#[trigger] es[b]).0@ by {
                        if b < es.len() - 1 {
                            assert(old_es[a].0@ != old_es[b].0@);
                        } else {
                            assert(old_es[a].0@ == es[a].0@);
                            assert(!names_contain(old_es, name@));
                            assert(old_es[a].0@ != name@);
                        }
                    }
                    lemma_entry_under(es, es.len() - 1, name@);
                    assert forall|k: Seq<char>| k != name@ implies #[trigger] names_contain(
                        es,
                        k,
                    ) == names_contain(old_es, k) by {
                        if names_contain(es, k) {
                            let w = choose|w: int|
                                0 <= w < es.len() && (#[trigger] es[w]).0@ == k;
                            assert(w < es.len() - 1);
                            assert(old_es[w].0@ == k);
                        }
                        if names_contain(old_es, k) {
                            let w = choose|w: int|
                                0 <= w < old_es.len() && (#[trigger] old_es[w]).0@ == k;
                            assert(es[w].0@ == k);
                        }
                    }
                    assert forall|k: Seq<char>|
                        k != name@ && names_contain(old_es, k) implies #[trigger] entry_under(
                        es,
                        k,
                    ) == entry_under(old_es, k) by {
                        let w = choose|w: int|
                            0 <= w < old_es.len() && (#[trigger] old_es[w]).0@ == k;
                        assert(es[w].0@ == k);
                        lemma_entry_under(es, w, k);
                        lemma_entry_under(old_es, w, k);
                    }
                }
            },
        }
    }

    /// Remove a command; returns its entry when it was there.
    pub fn remove_command(&mut self, name: &str) -> (r: Option<WhitelistEntry>)
        requires
            old(self).wf(),
        ensures
            final(self).wf(),
            r is Some <==> old(self).spec_contains(name@),
            r matches Some(e) ==> e == old(self).spec_entry(name@),
            !final(self).spec_contains(name@),
            forall|k: Seq<char>|
                k != name@ ==> #[trigger] final(self).spec_contains(k) == old(self).spec_contains(
                    k,
                ),
            forall|k: Seq<char>|
                k != name@ && old(self).spec_contains(k) ==> #[trigger] final(self).spec_entry(k)
                    == old(self).spec_entry(k),
            final(self).spec_len() == old(self).spec_len() - if old(self).spec_contains(name@) {
                1int
            } else {
                0int
            },
    {
        match self.find_index(name) {
            Some(i) => {
                let pair = self.entries.remove(i);
                proof {
                    let es = self.entries@;
                    let old_es = old(self).entries@;
                    lemma_entry_under(old_es, i as int, name@);
                    assert(es =~= old_es.subrange(0, i as int) + old_es.skip(i as int + 1));
                    assert forall|a: int, b: int| 0 <= a < b < es.len() implies (
                    #[trigger] es[a]).0@ != (#[trigger] es[b]).0@ by {
                        let a0 = if a < i as int {
                            a
                        } else {
                            a + 1
                        };
                        let b0 = if b < i as int {
                            b
                        } else {
                            b + 1
                        };
                        assert(es[a] == old_es[a0] && es[b] == old_es[b0]);
                        assert(old_es[a0].0@ != old_es[b0].0@);
                    }
                    assert forall|k: Seq<char>| #[trigger] names_contain(es, k) implies
                        names_contain(old_es, k) && k != name@ by {
                        let w = choose|w: int| 0 <= w < es.len() && (#[trigger] es[w]).0@ == k;
                        let w0 = if w < i as int {
                            w
                        } else {
                            w + 1
                        };
                        assert(es[w] == old_es[w0]);
                        if old_es[w0].0@ == name@ {
                            if w0 < i as int {
                                assert(old_es[w0].0@ != old_es[i as int].0@);
                            } else {
                                assert(old_es[i as int].0@ != old_es[w0].0@);
                            }
                        }
                    }
                    assert forall|k: Seq<char>|
                        k != name@ && names_contain(old_es, k) implies #[trigger] names_contain(
                        es,
                        k,
                    ) by {
                        let w0 = choose|w: int|
                            0 <= w < old_es.len() && (#[trigger] old_es[w]).0@ == k;
                        let w = if w0 < i as int {
                            w0
                        } else {
                            w0 - 1
                        };
                        assert(w0 != i as int);
                        assert(es[w] == old_es[w0]);
                    }
                    assert forall|k: Seq<char>|
                        k != name@ && names_contain(old_es, k) implies #[trigger] entry_under(
                        es,
                        k,
                    ) == entry_under(old_es, k) by {
                        let w0 = choose|w: int|
                            0 <= w < old_es.len() && (#[trigger] old_es[w]).0@ == k;
                        let w = if w0 < i as int {
                            w0
                        } else {
                            w0 - 1
                        };
                        assert(w0 != i as int);
                        assert(es[w] == old_es[w0]);
                        lemma_entry_under(es, w, k);
                        lemma_entry_under(old_es, w0, k);
                    }
                }
                Some(pair.1)
            },
            None => None,
        }
    }

    /// The entry of a command, when whitelisted.
    pub fn get(&self, name: &str) -> (r: Option<&WhitelistEntry>)
        requires
            self.wf(),
        ensures
            r is Some <==> self.spec_contains(name@),
            r matches Some(e) ==> *e == self.spec_entry(name@),
    {
        match self.find_index(name) {
            Some(i) => {
                proof {
                    lemma_entry_under(self.entries@, i as int, name@);
                }
                Some(&self.entries[i].1)
            },
            None => None,
        }
    }

    /// Whether a command is whitelisted.
    pub fn is_whitelisted(&self, name: &str) -> (r: bool)
        requires
            self.wf(),
        ensures
            r == self.spec_contains(name@),
    {
        match self.find_index(name) {
            Some(i) => {
                proof {
                    lemma_entry_under(self.entries@, i as int, name@);
                }
                true
            },
            None => false,
        }
    }

    /// All whitelisted command names, in insertion order.
    pub fn commands(&self) -> (r: Vec<String>)
        requires
            self.wf(),
        ensures
            r@.len() == self.spec_len(),
            forall|i: int|
                0 <= i < r@.len() ==> (#[trigger] r@[i])@ == self.spec_entries()[i].0@,
    {
        let n = self.entries.len();
        let mut r: Vec<String> = Vec::new();
        let mut i: usize = 0;
        while i < n
            invariant
                i <= n,
                n == self.entries@.len(),
                r@.len() == i,
                forall|j: int|
                    0 <= j < i ==> (#[trigger] r@[j])@ == self.entries@[j].0@,
            decreases n - i,
        {
            r.push(self.entries[i].0.clone());
            i = i + 1;
        }
        r
    }

    /// The number of whitelisted commands.
    pub fn len(&self) -> (r: usize)
        ensures
            r == self.spec_len(),
    {
        self.entries.len()
    }

    /// Whether the whitelist is empty.
    pub fn is_empty(&self) -> (r: bool)
        ensures
            r == (self.spec_len() == 0),
    {
        self.entries.len() == 0
    }

    /// The default safe set: read-only file and text tools, `echo` and
    /// `date`. Exactly these twelve commands are whitelisted.
    pub fn with_default_commands() -> (r: CommandWhitelist)
        ensures
            r.wf(),
            r.spec_len() == 12,
            r.spec_contains("ls"@),
            r.spec_contains("cat"@),
            r.spec_contains("grep"@),
            r.spec_contains("stat"@),
            r.spec_contains("pwd"@),
            r.spec_contains("find"@),
            r.spec_contains("head"@),
            r.spec_contains("tail"@),
            r.spec_contains("wc"@),
            r.spec_contains("du"@),
            r.spec_contains("echo"@),
            r.spec_contains("date"@),
            forall|k: Seq<char>|
                #[trigger] r.spec_contains(k) ==> (k == "ls"@ || k == "cat"@ || k == "grep"@ || k
                    == "stat"@ || k == "pwd"@ || k == "find"@ || k == "head"@ || k == "tail"@ || k
                    == "wc"@ || k == "du"@ || k == "echo"@ || k == "date"@),
    {
        proof {
            reveal_strlit("ls");
            reveal_strlit("cat");
            reveal_strlit("grep");
            reveal_strlit("stat");
            reveal_strlit("pwd");
            reveal_strlit("find");
            reveal_strlit("head");
            reveal_strlit("tail");
            reveal_strlit("wc");
            reveal_strlit("du");
            reveal_strlit("echo");
            reveal_strlit("date");
            assert("ls"@.len() == 2 && "ls"@[0] == 'l');
            assert("cat"@.len() == 3 && "cat"@[0] == 'c');
            assert("grep"@.len() == 4 && "grep"@[0] == 'g');
            assert("stat"@.len() == 4 && "stat"@[0] == 's');
            assert("pwd"@.len() == 3 && "pwd"@[0] == 'p');
            assert("find"@.len() == 4 && "find"@[0] == 'f');
            assert("head"@.len() == 4 && "head"@[0] == 'h');
            assert("tail"@.len() == 4 && "tail"@[0] == 't');
            assert("wc"@.len() == 2 && "wc"@[0] == 'w');
            assert("du"@.len() == 2 && "du"@[0] == 'd');
            assert("echo"@.len() == 4 && "echo"@[0] == 'e');
            assert("date"@.len() == 4 && "date"@[0] == 'd');
        }
        let mut whitelist = CommandWhitelist::new();
        whitelist.add_command(
            "ls",
            WhitelistEntry {
                command: "ls".to_owned(),
                description: Some("List directory contents".to_owned()),
                max_args: Some(20),
                allowed_arg_patterns: Some(
                    make_patterns2("^-[alhtrs]+$", "^[a-zA-Z0-9\\./_-]+$"),
                ),
                requires_sudo: false,
            },
        );
        assert(whitelist.spec_len() == 1);
        whitelist.add_command(
            "cat",
            WhitelistEntry {
                command: "cat".to_owned(),
                description: Some("Read file contents".to_owned()),
                max_args: Some(10),
                allowed_arg_patterns: Some(make_patterns1("^[a-zA-Z0-9\\./_-]+$")),
                requires_sudo: false,
            },
        );
        assert(whitelist.spec_len() == 2);
        whitelist.add_command(
            "grep",
            WhitelistEntry {
                command: "grep".to_owned(),
                description: Some("Search text patterns".to_owned()),
                max_args: Some(20),
                allowed_arg_patterns: Some(
                    make_patterns2("^-[irnvEFP]+$", "^[a-zA-Z0-9\\./_\\-\\s]+$"),
                ),
                requires_sudo: false,
            },
        );
        assert(whitelist.spec_len() == 3);
        whitelist.add_command(
            "stat",
            WhitelistEntry {
                command: "stat".to_owned(),
                description: Some("File information".to_owned()),
                max_args: Some(5),
                allowed_arg_patterns: Some(make_patterns2("^-[c]+$", "^[a-zA-Z0-9\\./_-]+$")),
                requires_sudo: false,
            },
        );
        assert(whitelist.spec_len() == 4);
        whitelist.add_command(
            "pwd",
            WhitelistEntry {
                command: "pwd".to_owned(),
                description: Some("Print working directory".to_owned()),
                max_args: Some(0),
                allowed_arg_patterns: None,
                requires_sudo: false,
            },
        );
        assert(whitelist.spec_len() == 5);
        whitelist.add_command(
            "find",
            WhitelistEntry {
                command: "find".to_owned(),
                description: Some("Find files".to_owned()),
                max_args: Some(30),
                allowed_arg_patterns: Some(
                    make_patterns2("^-[name|type|size|mtime]+$", "^[a-zA-Z0-9\\./_\\-\\*\\?]+$"),
                ),
                requires_sudo: false,
            },
        );
        assert(whitelist.spec_len() == 6);
        whitelist.add_command(
            "head",
            WhitelistEntry {
                command: "head".to_owned(),
                description: Some("Show file beginning".to_owned()),
                max_args: Some(5),
                allowed_arg_patterns: Some(make_patterns2("^-n\\d+$", "^[a-zA-Z0-9\\./_-]+$")),
                requires_sudo: false,
            },
        );
        assert(whitelist.spec_len() == 7);
        whitelist.add_command(
            "tail",
            WhitelistEntry {
                command: "tail".to_owned(),
                description: Some("Show file end".to_owned()),
                max_args: Some(5),
                allowed_arg_patterns: Some(make_patterns2("^-n\\d+$", "^[a-zA-Z0-9\\./_-]+$")),
                requires_sudo: false,
            },
        );
        assert(whitelist.spec_len() == 8);
        whitelist.add_command(
            "wc",
            WhitelistEntry {
                command: "wc".to_owned(),
                description: Some("Count words/lines".to_owned()),
                max_args: Some(10),
                allowed_arg_patterns: Some(make_patterns2("^-[lwc]+$", "^[a-zA-Z0-9\\./_-]+$")),
                requires_sudo: false,
            },
        );
        assert(whitelist.spec_len() == 9);
        whitelist.add_command(
            "du",
            WhitelistEntry {
                command: "du".to_owned(),
                description: Some("Disk usage".to_owned()),
                max_args: Some(10),
                allowed_arg_patterns: Some(make_patterns2("^-[shc]+$", "^[a-zA-Z0-9\\./_-]+$")),
                requires_sudo: false,
            },
        );
        assert(whitelist.spec_len() == 10);
        whitelist.add_command(
            "echo",
            WhitelistEntry {
                command: "echo".to_owned(),
                description: Some("Echo text".to_owned()),
                max_args: Some(50),
                allowed_arg_patterns: None,
                requires_sudo: false,
            },
        );
        assert(whitelist.spec_len() == 11);
        whitelist.add_command(
            "date",
            WhitelistEntry {
                command: "date".to_owned(),
                description: Some("Show date/time".to_owned()),
                max_args: Some(5),
                allowed_arg_patterns: Some(make_patterns1("^[\\+%a-zA-Z0-9\\-:/ ]+$")),
                requires_sudo: false,
            },
        );
        assert(whitelist.spec_len() == 12);
        whitelist
    }
}

impl Default for CommandWhitelist {
    /// The default safe command set.
    fn default() -> (r: CommandWhitelist)
        ensures
            r.wf(),
            r.spec_len() == 12,
            r.spec_contains("ls"@),
            r.spec_contains("echo"@),
    {
        CommandWhitelist::with_default_commands()
    }
}

/// A vector of one pattern string.
fn make_patterns1(a: &str) -> (r: Vec<String>)
    ensures
        r@.len() == 1,
        r@[0]@ == a@,
{
    let mut v: Vec<String> = Vec::new();
    v.push(a.to_owned());
    v
}

/// A vector of two pattern strings.
fn make_patterns2(a: &str, b: &str) -> (r: Vec<String>)
    ensures
        r@.len() == 2,
        r@[0]@ == a@,
        r@[1]@ == b@,
{
    let mut v: Vec<String> = Vec::new();
    v.push(a.to_owned());
    v.push(b.to_owned());
    v
}

} // verus!
