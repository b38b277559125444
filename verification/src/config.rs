//! Configuration of the session: editor and terminal preferences, files to
//! copy into new worktrees, the post-creation script, and the named
//! branch-type presets of the add flow; with the parser and printer of the
//! line-oriented configuration text.

use vstd::prelude::*;

use crate::text::append_chars;
use crate::text::chars_eq;
use crate::text::chars_of;
use crate::text::find_first;
use crate::text::first_index_of;
use crate::text::last_index_of;
use crate::text::lemma_first_index_of_absent;
use crate::text::lemma_first_index_of_at;
use crate::text::lemma_last_index_of_absent;
use crate::text::lemma_last_index_of_at;
use crate::text::find_last;
use crate::text::slice_range;
use crate::text::split_chars;
use crate::text::split_on;
use crate::text::string_from_chars;
use crate::text::trim;
use crate::text::trim_chars;
use crate::text::trim_end_matching;
use crate::text::trim_matching;
use crate::text::trim_start_matching;

verus! {

/// A named branch-type preset used to pre-fill the add flow.
#[derive(Debug, Clone)]
pub struct BranchType {
    /// Preset name, such as a work category.
    pub name: String,
    /// Branch-name prefix the preset starts the input with.
    pub prefix: String,
    /// Base branch new branches of this type are created from.
    pub base: String,
    /// Single-character shortcut that selects the preset.
    pub shortcut: char,
}

/// Mathematical form of one branch-type preset.
#[verifier::ext_equal]
pub struct BtSpec {
    pub name: Seq<char>,
    pub prefix: Seq<char>,
    pub base: Seq<char>,
    pub shortcut: char,
}

impl BranchType {
    /// The mathematical form of this preset.
    pub open spec fn spec_bt(self) -> BtSpec {
        BtSpec { name: self.name@, prefix: self.prefix@, base: self.base@, shortcut: self.shortcut }
    }

    /// A preset with the given fields.
    pub fn new(name: &str, prefix: &str, base: &str, shortcut: char) -> (r: Self)
        ensures
            r.name@ == name@,
            r.prefix@ == prefix@,
            r.base@ == base@,
            r.shortcut == shortcut,
    {
        BranchType {
            name: name.to_owned(),
            prefix: prefix.to_owned(),
            base: base.to_owned(),
            shortcut,
        }
    }
}

/// The built-in presets of a branching workflow, used when none are
/// configured.
pub fn default_branch_types() -> (r: Vec<BranchType>)
    ensures
        r@.len() == 4,
        r@[0].spec_bt() == (BtSpec {
            name: "feature"@,
            prefix: "feature/"@,
            base: "develop"@,
            shortcut: 'f',
        }),
        r@[1].spec_bt() == (BtSpec {
            name: "hotfix"@,
            prefix: "hotfix/"@,
            base: "main"@,
            shortcut: 'h',
        }),
        r@[2].spec_bt() == (BtSpec {
            name: "release"@,
            prefix: "release/"@,
            base: "develop"@,
            shortcut: 'r',
        }),
        r@[3].spec_bt() == (BtSpec {
            name: "bugfix"@,
            prefix: "bugfix/"@,
            base: "develop"@,
            shortcut: 'b',
        }),
{
    let mut r: Vec<BranchType> = Vec::new();
    r.push(BranchType::new("feature", "feature/", "develop", 'f'));
    r.push(BranchType::new("hotfix", "hotfix/", "main", 'h'));
    r.push(BranchType::new("release", "release/", "develop", 'r'));
    r.push(BranchType::new("bugfix", "bugfix/", "develop", 'b'));
    r
}

/// The resolved configuration values.
#[derive(Debug)]
pub struct Config {
    pub editor: Option<String>,
    pub terminal: Option<String>,
    /// Files copied into a fresh worktree from an existing one.
    pub copy_files: Vec<String>,
    /// Script run in a fresh worktree after it is created.
    pub post_add_script: Option<String>,
    /// Branch-type presets of the add flow.
    pub branch_types: Vec<BranchType>,
}

impl Default for Config {
    /// No preferences, no files to copy, no script, no presets.
    fn default() -> (r: Self)
        ensures
            r.editor is None,
            r.terminal is None,
            r.copy_files@ == Seq::<String>::empty(),
            r.post_add_script is None,
            r.branch_types@ == Seq::<BranchType>::empty(),
    {
        Config {
            editor: None,
            terminal: None,
            copy_files: Vec::new(),
            post_add_script: None,
            branch_types: Vec::new(),
        }
    }
}

/// The view of an optional string.
pub open spec fn opt_str_view(v: Option<String>) -> Option<Seq<char>> {
    match v {
        Some(s) => Some(s@),
        None => None,
    }
}

/// A half-filled branch-type block of the configuration text.
pub struct BtBuilder {
    pub name: Option<Seq<char>>,
    pub prefix: Option<Seq<char>>,
    pub base: Option<Seq<char>>,
    pub shortcut: Option<char>,
}

/// The preset a finished block denotes: nothing unless every field was set.
pub open spec fn bt_build(b: BtBuilder) -> Option<BtSpec> {
    match (b.name, b.prefix, b.base, b.shortcut) {
        (Option::Some(n), Option::Some(p), Option::Some(ba), Option::Some(s)) => Some(
            BtSpec { name: n, prefix: p, base: ba, shortcut: s },
        ),
        _ => None,
    }
}

/// Parsing state of the configuration text: the values read so far and the
/// open branch-type block, if the reader stands inside one.
pub struct CfgState {
    pub editor: Option<Seq<char>>,
    pub terminal: Option<Seq<char>>,
    pub post_add_script: Option<Seq<char>>,
    pub copy_files: Seq<Seq<char>>,
    pub branch_types: Seq<BtSpec>,
    pub bt: Option<BtBuilder>,
}

/// The state with nothing read yet.
pub open spec fn cfg_init() -> CfgState {
    CfgState {
        editor: None,
        terminal: None,
        post_add_script: None,
        copy_files: Seq::empty(),
        branch_types: Seq::empty(),
        bt: None,
    }
}

/// Closes the open branch-type block: a complete block becomes a preset,
/// an incomplete one is dropped.
pub open spec fn cfg_flush(st: CfgState) -> CfgState {
    match st.bt {
        Some(b) => match bt_build(b) {
            Some(x) => CfgState { branch_types: st.branch_types.push(x), bt: None, ..st },
            None => CfgState { bt: None, ..st },
        },
        None => st,
    }
}

/// Every occurrence of `c` removed from both ends.
pub open spec fn trim_both_matching(s: Seq<char>, c: char) -> Seq<char> {
    trim_end_matching(trim_start_matching(s, c), c)
}

/// A value with surrounding whitespace and one layer of double then single
/// quotes removed, as the configuration syntax allows.
pub open spec fn unquote(v: Seq<char>) -> Seq<char> {
    trim_both_matching(trim_both_matching(trim(v), '"'), '\'')
}

/// The items of a copy-files list value: brackets removed, split on commas,
/// each item unquoted, empty items dropped.
pub open spec fn copy_items(parts: Seq<Seq<char>>) -> Seq<Seq<char>>
    decreases parts.len(),
{
    if parts.len() == 0 {
        Seq::empty()
    } else {
        let rest = copy_items(parts.drop_first());
        let item = unquote(parts.first());
        if item.len() > 0 {
            seq![item] + rest
        } else {
            rest
        }
    }
}

/// The list a copy-files value denotes.
pub open spec fn copy_value(v: Seq<char>) -> Seq<Seq<char>> {
    copy_items(split_on(trim_both_matching(trim_both_matching(v, '['), ']'), ','))
}

/// One line of the configuration text applied to the parsing state:
/// comments and blank lines are skipped, a section header closes the open
/// block and opens a branch-type block on the block marker, and a key-value
/// line sets the named field of the open block or of the configuration.
pub open spec fn cfg_step(st: CfgState, raw: Seq<char>) -> CfgState {
    let line = trim(raw);
    if line.len() == 0 || line[0] == '#' {
        st
    } else if line[0] == '[' {
        let st1 = cfg_flush(st);
        if line == "[[branch_types]]"@ {
            CfgState {
                bt: Some(BtBuilder { name: None, prefix: None, base: None, shortcut: None }),
                ..st1
            }
        } else {
            st1
        }
    } else if first_index_of(line, '=') >= 0 {
        let i = first_index_of(line, '=');
        let key = trim(line.subrange(0, i));
        let value = unquote(line.subrange(i + 1, line.len() as int));
        match st.bt {
            Some(b) => {
                if key == "name"@ {
                    CfgState { bt: Some(BtBuilder { name: Some(value), ..b }), ..st }
                } else if key == "prefix"@ {
                    CfgState { bt: Some(BtBuilder { prefix: Some(value), ..b }), ..st }
                } else if key == "base"@ {
                    CfgState { bt: Some(BtBuilder { base: Some(value), ..b }), ..st }
                } else if key == "shortcut"@ {
                    CfgState {
                        bt: Some(
                            BtBuilder {
                                shortcut: if value.len() > 0 {
                                    Some(value[0])
                                } else {
                                    None
                                },
                                ..b
                            },
                        ),
                        ..st
                    }
                } else {
                    st
                }
            },
            None => {
                if key == "editor"@ {
                    CfgState { editor: Some(value), ..st }
                } else if key == "terminal"@ {
                    CfgState { terminal: Some(value), ..st }
                } else if key == "post_add_script"@ {
                    CfgState { post_add_script: Some(value), ..st }
                } else if key == "copy_files"@ {
                    CfgState { copy_files: copy_value(value), ..st }
                } else {
                    st
                }
            },
        }
    } else {
        st
    }
}

/// The parsing state after all lines are read.
pub open spec fn cfg_fold(lines: Seq<Seq<char>>, st: CfgState) -> CfgState
    decreases lines.len(),
{
    if lines.len() == 0 {
        st
    } else {
        cfg_fold(lines.drop_first(), cfg_step(st, lines.first()))
    }
}

/// The configuration a whole text denotes.
pub open spec fn parse_config_spec(s: Seq<char>) -> CfgState {
    cfg_flush(cfg_fold(split_on(s, '\n'), cfg_init()))
}

/// Whether a configuration holds exactly the values of a final parsing
/// state.
pub open spec fn config_matches(c: Config, st: CfgState) -> bool {
    &&& opt_str_view(c.editor) == st.editor
    &&& opt_str_view(c.terminal) == st.terminal
    &&& opt_str_view(c.post_add_script) == st.post_add_script
    &&& c.copy_files@.map_values(|s: String| s@) == st.copy_files
    &&& c.branch_types@.map_values(|b: BranchType| b.spec_bt()) == st.branch_types
}

/// The copy-files items of an already unquoted value.
fn parse_copy_value(value: &Vec<char>) -> (r: Vec<String>)
    ensures
        r@.map_values(|s: String| s@) == copy_value(value@),
{
    let v2 = trim_matching(&trim_matching(value, '['), ']');
    let parts = split_chars(&v2, ',');
    let ghost pv = parts@.map_values(|v: Vec<char>| v@);
    let mut r: Vec<String> = Vec::new();
    let mut k: usize = parts.len();
    proof {
        assert(pv.skip(k as int) =~= Seq::<Seq<char>>::empty());
        assert(r@.map_values(|s: String| s@) =~= copy_items(pv.skip(k as int)));
    }
    while k > 0
        invariant
            k <= parts@.len(),
            pv == parts@.map_values(|v: Vec<char>| v@),
            pv == split_on(trim_both_matching(trim_both_matching(value@, '['), ']'), ','),
            r@.map_values(|s: String| s@) == copy_items(pv.skip(k as int)),
        decreases k,
    {
        k = k - 1;
        proof {
            assert(pv[k as int] == parts@[k as int]@);
            assert(pv.skip(k as int).first() == pv[k as int]);
            assert(pv.skip(k as int).drop_first() =~= pv.skip(k + 1));
        }
        let item = unquote_chars(&parts[k]);
        if item.len() > 0 {
            let ghost r0 = r@;
            r.insert(0, string_from_chars(&item));
            proof {
                assert(r@.map_values(|s: String| s@) =~= seq![unquote(pv[k as int])]
                    + r0.map_values(|s: String| s@));
            }
        }
    }
    proof {
        assert(pv.skip(0) =~= pv);
    }
    r
}

/// Removes whitespace and one layer of double then single quotes.
fn unquote_chars(v: &Vec<char>) -> (r: Vec<char>)
    ensures
        r@ == unquote(v@),
{
    let t = trim_chars(v);
    let q1 = trim_matching(&t, '"');
    let q2 = trim_matching(&q1, '\'');
    q2
}

impl Config {
    /// Parses the configuration text, line by line.
    pub fn parse(content: &str) -> (r: Config)
        ensures
            config_matches(r, parse_config_spec(content@)),
    {
        let chars = chars_of(content);
        let lines = split_chars(&chars, '\n');
        let ghost lv = lines@.map_values(|v: Vec<char>| v@);

        let mut editor: Option<String> = None;
        let mut terminal: Option<String> = None;
        let mut post_add_script: Option<String> = None;
        let mut copy_files: Vec<String> = Vec::new();
        let mut branch_types: Vec<BranchType> = Vec::new();
        let mut bt_active: bool = false;
        let mut bt_name: Option<Vec<char>> = None;
        let mut bt_prefix: Option<Vec<char>> = None;
        let mut bt_base: Option<Vec<char>> = None;
        let mut bt_shortcut: Option<char> = None;

        let section_marker = chars_of("[[branch_types]]");
        let key_name = chars_of("name");
        let key_prefix = chars_of("prefix");
        let key_base = chars_of("base");
        let key_shortcut = chars_of("shortcut");
        let key_editor = chars_of("editor");
        let key_terminal = chars_of("terminal");
        let key_script = chars_of("post_add_script");
        let key_copy = chars_of("copy_files");

        let mut k: usize = 0;
        proof {
            assert(lv.skip(0) =~= lv);
            assert(copy_files@.map_values(|s: String| s@) =~= Seq::<Seq<char>>::empty());
            assert(branch_types@.map_values(|b: BranchType| b.spec_bt()) =~= Seq::<
                BtSpec,
            >::empty());
        }
        while k < lines.len()
            invariant
                k <= lines@.len(),
                lv == lines@.map_values(|v: Vec<char>| v@),
                lv == split_on(content@, '\n'),
                section_marker@ == "[[branch_types]]"@,
                key_name@ == "name"@,
                key_prefix@ == "prefix"@,
                key_base@ == "base"@,
                key_shortcut@ == "shortcut"@,
                key_editor@ == "editor"@,
                key_terminal@ == "terminal"@,
                key_script@ == "post_add_script"@,
                key_copy@ == "copy_files"@,
                cfg_fold(lv, cfg_init()) == cfg_fold(
                    lv.skip(k as int),
                    cfg_of_locals(
                        editor,
                        terminal,
                        post_add_script,
                        copy_files@,
                        branch_types@,
                        bt_active,
                        bt_name,
                        bt_prefix,
                        bt_base,
                        bt_shortcut,
                    ),
                ),
            decreases lines@.len() - k,
        {
            let ghost st = cfg_of_locals(
                editor,
                terminal,
                post_add_script,
                copy_files@,
                branch_types@,
                bt_active,
                bt_name,
                bt_prefix,
                bt_base,
                bt_shortcut,
            );
            proof {
                assert(lv[k as int] == lines@[k as int]@);
                assert(lv.skip(k as int).first() == lv[k as int]);
                assert(lv.skip(k as int).drop_first() =~= lv.skip(k + 1));
            }
            let line = trim_chars(&lines[k]);
            if line.len() == 0 || line[0] == '#' {
                // skipped
            } else if line[0] == '[' {
                if bt_active {
                    match (&bt_name, &bt_prefix, &bt_base, &bt_shortcut) {
                        (
                            Option::Some(n),
                            Option::Some(p),
                            Option::Some(ba),
                            Option::Some(sc),
                        ) => {
                            let ghost bts0 = branch_types@;
                            let nb = BranchType {
                                name: string_from_chars(n),
                                prefix: string_from_chars(p),
                                base: string_from_chars(ba),
                                shortcut: *sc,
                            };
                            branch_types.push(nb);
                            proof {
                                assert(st.bt == Some(
                                    BtBuilder {
                                        name: Some(n@),
                                        prefix: Some(p@),
                                        base: Some(ba@),
                                        shortcut: Some(*sc),
                                    },
                                ));
                                assert(bt_build(st.bt->0)->0 =~= nb.spec_bt());
                                assert(branch_types@ == bts0.push(nb));
                                lemma_bts_map_push(bts0, nb);
                                assert(bts0.map_values(|b: BranchType| b.spec_bt()).push(
                                    nb.spec_bt(),
                                ) =~~= bts0.map_values(|b: BranchType| b.spec_bt()).push(
                                    bt_build(st.bt->0)->0,
                                ));
                            }
                        },
                        _ => {},
                    }
                }
                bt_name = None;
                bt_prefix = None;
                bt_base = None;
                bt_shortcut = None;
                if chars_eq(&line, &section_marker) {
                    bt_active = true;
                } else {
                    bt_active = false;
                }
            } else {
                match find_first(&line, '=') {
                    Some(i) => {
                        proof {
                            lemma_first_index_of_at(line@, '=', i as int);
                        }
                        let n = line.len();
                        let key = trim_chars(&slice_range(&line, 0, i));
                        let value = unquote_chars(&slice_range(&line, i + 1, n));
                        if bt_active {
                            if chars_eq(&key, &key_name) {
                                bt_name = Some(value);
                            } else if chars_eq(&key, &key_prefix) {
                                bt_prefix = Some(value);
                            } else if chars_eq(&key, &key_base) {
                                bt_base = Some(value);
                            } else if chars_eq(&key, &key_shortcut) {
                                if value.len() > 0 {
                                    bt_shortcut = Some(value[0]);
                                } else {
                                    bt_shortcut = None;
                                }
                            }
                        } else {
                            if chars_eq(&key, &key_editor) {
                                editor = Some(string_from_chars(&value));
                            } else if chars_eq(&key, &key_terminal) {
                                terminal = Some(string_from_chars(&value));
                            } else if chars_eq(&key, &key_script) {
                                post_add_script = Some(string_from_chars(&value));
                            } else if chars_eq(&key, &key_copy) {
                                let ghost cf0 = copy_files@;
                                copy_files = parse_copy_value(&value);
                            }
                        }
                    },
                    None => {
                        proof {
                            lemma_first_index_of_absent(line@, '=');
                        }
                    },
                }
            }
            proof {
                assert(cfg_of_locals(
                    editor,
                    terminal,
                    post_add_script,
                    copy_files@,
                    branch_types@,
                    bt_active,
                    bt_name,
                    bt_prefix,
                    bt_base,
                    bt_shortcut,
                ) == cfg_step(st, lv[k as int]));
            }
            k = k + 1;
        }
        let ghost st_final = cfg_of_locals(
            editor,
            terminal,
            post_add_script,
            copy_files@,
            branch_types@,
            bt_active,
            bt_name,
            bt_prefix,
            bt_base,
            bt_shortcut,
        );
        proof {
            assert(lv.skip(k as int) =~= Seq::<Seq<char>>::empty());
            assert(cfg_fold(lv, cfg_init()) == st_final);
        }
        if bt_active {
            match (&bt_name, &bt_prefix, &bt_base, &bt_shortcut) {
                (Option::Some(n), Option::Some(p), Option::Some(ba), Option::Some(sc)) => {
                    let ghost bts0 = branch_types@;
                    let nb = BranchType {
                        name: string_from_chars(n),
                        prefix: string_from_chars(p),
                        base: string_from_chars(ba),
                        shortcut: *sc,
                    };
                    branch_types.push(nb);
                    proof {
                        assert(st_final.bt == Some(
                            BtBuilder {
                                name: Some(n@),
                                prefix: Some(p@),
                                base: Some(ba@),
                                shortcut: Some(*sc),
                            },
                        ));
                        assert(bt_build(st_final.bt->0)->0 =~= nb.spec_bt());
                        assert(branch_types@ == bts0.push(nb));
                        lemma_bts_map_push(bts0, nb);
                        assert(bts0.map_values(|b: BranchType| b.spec_bt()).push(
                            nb.spec_bt(),
                        ) =~~= bts0.map_values(|b: BranchType| b.spec_bt()).push(
                            bt_build(st_final.bt->0)->0,
                        ));
                    }
                },
                _ => {},
            }
        }
        Config { editor, terminal, copy_files, post_add_script, branch_types }
    }
}

/// The parsing state the exec-side locals stand for.
pub open spec fn cfg_of_locals(
    editor: Option<String>,
    terminal: Option<String>,
    post_add_script: Option<String>,
    copy_files: Seq<String>,
    branch_types: Seq<BranchType>,
    bt_active: bool,
    bt_name: Option<Vec<char>>,
    bt_prefix: Option<Vec<char>>,
    bt_base: Option<Vec<char>>,
    bt_shortcut: Option<char>,
) -> CfgState {
    CfgState {
        editor: opt_str_view(editor),
        terminal: opt_str_view(terminal),
        post_add_script: opt_str_view(post_add_script),
        copy_files: copy_files.map_values(|s: String| s@),
        branch_types: branch_types.map_values(|b: BranchType| b.spec_bt()),
        bt: if bt_active {
            Some(
                BtBuilder {
                    name: crate::git::opt_chars_view(bt_name),
                    prefix: crate::git::opt_chars_view(bt_prefix),
                    base: crate::git::opt_chars_view(bt_base),
                    shortcut: bt_shortcut,
                },
            )
        } else {
            None
        },
    }
}

} // verus!

verus! {

/// Mapping presets to their mathematical form commutes with appending one.
proof fn lemma_bts_map_push(bts0: Seq<BranchType>, nb: BranchType)
    ensures
        bts0.push(nb).map_values(|b: BranchType| b.spec_bt()) == bts0.map_values(
            |b: BranchType| b.spec_bt(),
        ).push(nb.spec_bt()),
{
    assert(bts0.push(nb).map_values(|b: BranchType| b.spec_bt()) =~~= bts0.map_values(
        |b: BranchType| b.spec_bt(),
    ).push(nb.spec_bt()));
}

} // verus!

verus! {

impl Config {
    /// Overrides these values with the other configuration's: a field set
    /// there wins, an unset one leaves this value standing.
    pub fn merge_from(&mut self, other: Config)
        ensures
            final(self).editor == (if other.editor is Some {
                other.editor
            } else {
                old(self).editor
            }),
            final(self).terminal == (if other.terminal is Some {
                other.terminal
            } else {
                old(self).terminal
            }),
            final(self).copy_files == (if other.copy_files@.len() > 0 {
                other.copy_files
            } else {
                old(self).copy_files
            }),
            final(self).post_add_script == (if other.post_add_script is Some {
                other.post_add_script
            } else {
                old(self).post_add_script
            }),
            final(self).branch_types == (if other.branch_types@.len() > 0 {
                other.branch_types
            } else {
                old(self).branch_types
            }),
    {
        if other.editor.is_some() {
            self.editor = other.editor;
        }
        if other.terminal.is_some() {
            self.terminal = other.terminal;
        }
        if other.copy_files.len() > 0 {
            self.copy_files = other.copy_files;
        }
        if other.post_add_script.is_some() {
            self.post_add_script = other.post_add_script;
        }
        if other.branch_types.len() > 0 {
            self.branch_types = other.branch_types;
        }
    }

    /// The first preset carrying the shortcut, if any does.
    pub fn find_branch_type_by_shortcut(&self, shortcut: char) -> (r: Option<&BranchType>)
        ensures
            (match r {
                Some(b) => exists|i: int|
                    0 <= i < self.branch_types@.len() && #[trigger] self.branch_types@[i] == *b
                        && b.shortcut == shortcut && (forall|j: int|
                        0 <= j < i ==> self.branch_types@[j].shortcut != shortcut),
                None => forall|j: int|
                    0 <= j < self.branch_types@.len() ==> self.branch_types@[j].shortcut
                        != shortcut,
            }),
    {
        let mut i: usize = 0;
        while i < self.branch_types.len()
            invariant
                i <= self.branch_types@.len(),
                forall|j: int| 0 <= j < i ==> self.branch_types@[j].shortcut != shortcut,
            decreases self.branch_types@.len() - i,
        {
            if self.branch_types[i].shortcut == shortcut {
                return Some(&self.branch_types[i]);
            }
            i = i + 1;
        }
        None
    }

    /// Resolves the configuration from the global and the project-level
    /// texts: the global values first, project values overriding them, and
    /// the built-in presets when neither names any.
    pub fn resolve(global_text: Option<&str>, project_text: Option<&str>) -> (r: Config)
        ensures
            ({
                let g = match global_text {
                    Some(t) => parse_config_spec(t@),
                    None => cfg_init(),
                };
                let p = match project_text {
                    Some(t) => parse_config_spec(t@),
                    None => cfg_init(),
                };
                let bts = if p.branch_types.len() > 0 {
                    p.branch_types
                } else {
                    g.branch_types
                };
                &&& opt_str_view(r.editor) == (if p.editor is Some {
                    p.editor
                } else {
                    g.editor
                })
                &&& opt_str_view(r.terminal) == (if p.terminal is Some {
                    p.terminal
                } else {
                    g.terminal
                })
                &&& opt_str_view(r.post_add_script) == (if p.post_add_script is Some {
                    p.post_add_script
                } else {
                    g.post_add_script
                })
                &&& r.copy_files@.map_values(|s: String| s@) == (if p.copy_files.len() > 0 {
                    p.copy_files
                } else {
                    g.copy_files
                })
                &&& (bts.len() > 0 ==> r.branch_types@.map_values(|b: BranchType| b.spec_bt())
                    == bts)
                &&& (bts.len() == 0 ==> r.branch_types@.len() == 4)
            }),
    {
        let mut config = match global_text {
            Some(t) => Config::parse(t),
            None => Config::default(),
        };
        if let Some(t) = project_text {
            let project = Config::parse(t);
            config.merge_from(project);
        }
        if config.branch_types.len() == 0 {
            config.branch_types = default_branch_types();
        }
        config
    }
}

/// The administrative directory beside the repository root: the root's
/// parent with the directory name appended, or the bare name when the root
/// path has no parent.
pub open spec fn owt_dir_spec(p: Seq<char>) -> Seq<char> {
    if last_index_of(p, '/') >= 0 {
        p.subrange(0, last_index_of(p, '/')) + "/.owt"@
    } else {
        ".owt"@
    }
}

impl Config {
    /// The administrative directory for a repository root.
    pub fn owt_dir(bare_repo_path: &str) -> (r: String)
        ensures
            r@ == owt_dir_spec(bare_repo_path@),
    {
        let chars = chars_of(bare_repo_path);
        let suffix = chars_of("/.owt");
        match find_last(&chars, '/') {
            Some(i) => {
                proof {
                    lemma_last_index_of_at(chars@, '/', i as int);
                }
                let mut v = slice_range(&chars, 0, i);
                append_chars(&mut v, &suffix);
                string_from_chars(&v)
            },
            None => {
                proof {
                    lemma_last_index_of_absent(chars@, '/');
                }
                let dot = chars_of(".owt");
                string_from_chars(&dot)
            },
        }
    }

    /// The project-level configuration file within the administrative
    /// directory.
    pub fn project_config_path(bare_repo_path: &str) -> (r: String)
        ensures
            r@ == owt_dir_spec(bare_repo_path@) + "/config.toml"@,
    {
        let dir = Config::owt_dir(bare_repo_path);
        let mut v = chars_of(dir.as_str());
        append_chars(&mut v, &chars_of("/config.toml"));
        string_from_chars(&v)
    }

    /// The post-creation script within the administrative directory.
    pub fn post_add_script_path(bare_repo_path: &str) -> (r: String)
        ensures
            r@ == owt_dir_spec(bare_repo_path@) + "/post-add.sh"@,
    {
        let dir = Config::owt_dir(bare_repo_path);
        let mut v = chars_of(dir.as_str());
        append_chars(&mut v, &chars_of("/post-add.sh"));
        string_from_chars(&v)
    }
}

} // verus!

verus! {

/// One quoted key-value line of the configuration text.
pub open spec fn toml_line(key: Seq<char>, v: Seq<char>) -> Seq<char> {
    key + " = \""@ + v + "\"\n"@
}

/// The copy-files items, each quoted, joined with a comma and a space.
pub open spec fn quoted_items(fs: Seq<Seq<char>>) -> Seq<char>
    decreases fs.len(),
{
    if fs.len() == 0 {
        Seq::empty()
    } else if fs.len() == 1 {
        "\""@ + fs[0] + "\""@
    } else {
        "\""@ + fs[0] + "\""@ + ", "@ + quoted_items(fs.drop_first())
    }
}

/// One rendered branch-type block.
pub open spec fn bt_block(b: BtSpec) -> Seq<char> {
    "[[branch_types]]\n"@ + toml_line("name"@, b.name) + toml_line("prefix"@, b.prefix)
        + toml_line("base"@, b.base) + toml_line("shortcut"@, seq![b.shortcut]) + "\n"@
}

/// The rendered branch-type blocks, in order.
pub open spec fn bt_blocks(bs: Seq<BtSpec>) -> Seq<char>
    decreases bs.len(),
{
    if bs.len() == 0 {
        Seq::empty()
    } else {
        bt_block(bs.first()) + bt_blocks(bs.drop_first())
    }
}

/// The configuration rendered as text: one line per set value, the
/// copy-files list bracketed, and the branch-type blocks after a blank
/// line when any presets exist.
pub open spec fn toml_of(c: Config) -> Seq<char> {
    (match c.editor {
        Some(e) => toml_line("editor"@, e@),
        None => Seq::empty(),
    }) + (match c.terminal {
        Some(t) => toml_line("terminal"@, t@),
        None => Seq::empty(),
    }) + (if c.copy_files@.len() > 0 {
        "copy_files = ["@ + quoted_items(c.copy_files@.map_values(|s: String| s@)) + "]\n"@
    } else {
        Seq::empty()
    }) + (match c.post_add_script {
        Some(s) => toml_line("post_add_script"@, s@),
        None => Seq::empty(),
    }) + (if c.branch_types@.len() > 0 {
        "\n"@ + bt_blocks(c.branch_types@.map_values(|b: BranchType| b.spec_bt()))
    } else {
        Seq::empty()
    })
}

/// Appends one quoted key-value line.
fn push_toml_line(out: &mut Vec<char>, key: &Vec<char>, v: &Vec<char>)
    ensures
        final(out)@ == old(out)@ + toml_line(key@, v@),
{
    append_chars(out, key);
    append_chars(out, &chars_of(" = \""));
    append_chars(out, v);
    append_chars(out, &chars_of("\"\n"));
    proof {
        assert(out@ =~= old(out)@ + toml_line(key@, v@));
    }
}

impl Config {
    /// Renders the configuration as its textual form.
    #[verifier::rlimit(60)]
    pub fn to_toml(&self) -> (r: String)
        ensures
            r@ == toml_of(*self),
    {
        let mut out: Vec<char> = Vec::new();
        let ghost part0 = Seq::<char>::empty();
        if let Some(e) = &self.editor {
            push_toml_line(&mut out, &chars_of("editor"), &chars_of(e.as_str()));
        }
        let ghost part1 = out@;
        if let Some(t) = &self.terminal {
            push_toml_line(&mut out, &chars_of("terminal"), &chars_of(t.as_str()));
        }
        let ghost part2 = out@;
        if self.copy_files.len() > 0 {
            append_chars(&mut out, &chars_of("copy_files = ["));
            let ghost items = self.copy_files@.map_values(|s: String| s@);
            let ghost mid = out@;
            let mut k: usize = 0;
            proof {
                assert(items.skip(0) =~= items);
            }
            while k < self.copy_files.len()
                invariant_except_break
                    k < self.copy_files@.len(),
                invariant
                    k <= self.copy_files@.len(),
                    items == self.copy_files@.map_values(|s: String| s@),
                    mid + quoted_items(items) == out@ + quoted_items(items.skip(k as int)),
                ensures
                    out@ == mid + quoted_items(items),
                decreases self.copy_files@.len() - k,
            {
                proof {
                    assert(items[k as int] == self.copy_files@[k as int]@);
                    assert(items.skip(k as int).first() == items[k as int]);
                    assert(items.skip(k as int).drop_first() =~= items.skip(k + 1));
                }
                let ghost o0 = out@;
                append_chars(&mut out, &chars_of("\""));
                append_chars(&mut out, &chars_of(self.copy_files[k].as_str()));
                append_chars(&mut out, &chars_of("\""));
                if k + 1 < self.copy_files.len() {
                    append_chars(&mut out, &chars_of(", "));
                    proof {
                        assert(items.skip(k as int).len() > 1);
                        assert(out@ + quoted_items(items.skip(k + 1)) =~= o0 + quoted_items(
                            items.skip(k as int),
                        ));
                    }
                    k = k + 1;
                } else {
                    proof {
                        assert(items.skip(k as int).len() == 1);
                        assert(quoted_items(items.skip(k as int)) == "\""@ + items[k as int]
                            + "\""@);
                        assert(out@ =~= o0 + quoted_items(items.skip(k as int)));
                        assert(items.skip(k + 1) =~= Seq::<Seq<char>>::empty());
                        assert(out@ + quoted_items(items.skip(k + 1)) =~= out@);
                        assert(out@ == mid + quoted_items(items));
                    }
                    k = k + 1;
                    break ;
                }
            }
            append_chars(&mut out, &chars_of("]\n"));
            proof {
                assert(out@ =~= part2 + ("copy_files = ["@ + quoted_items(items) + "]\n"@));
            }
        }
        let ghost part3 = out@;
        if let Some(s) = &self.post_add_script {
            push_toml_line(&mut out, &chars_of("post_add_script"), &chars_of(s.as_str()));
        }
        let ghost part4 = out@;
        if self.branch_types.len() > 0 {
            append_chars(&mut out, &chars_of("\n"));
            let ghost blocks = self.branch_types@.map_values(|b: BranchType| b.spec_bt());
            let ghost mid = out@;
            let mut k: usize = 0;
            proof {
                assert(blocks.skip(0) =~= blocks);
            }
            while k < self.branch_types.len()
                invariant
                    k <= self.branch_types@.len(),
                    blocks == self.branch_types@.map_values(|b: BranchType| b.spec_bt()),
                    mid + bt_blocks(blocks) == out@ + bt_blocks(blocks.skip(k as int)),
                decreases self.branch_types@.len() - k,
            {
                proof {
                    assert(blocks[k as int] == self.branch_types@[k as int].spec_bt());
                    assert(blocks.skip(k as int).first() == blocks[k as int]);
                    assert(blocks.skip(k as int).drop_first() =~= blocks.skip(k + 1));
                }
                let ghost o0 = out@;
                let bt = &self.branch_types[k];
                append_chars(&mut out, &chars_of("[[branch_types]]\n"));
                push_toml_line(&mut out, &chars_of("name"), &chars_of(bt.name.as_str()));
                push_toml_line(&mut out, &chars_of("prefix"), &chars_of(bt.prefix.as_str()));
                push_toml_line(&mut out, &chars_of("base"), &chars_of(bt.base.as_str()));
                let mut sc: Vec<char> = Vec::new();
                sc.push(bt.shortcut);
                proof {
                    assert(sc@ =~= seq![bt.shortcut]);
                }
                push_toml_line(&mut out, &chars_of("shortcut"), &sc);
                append_chars(&mut out, &chars_of("\n"));
                proof {
                    assert(out@ =~= o0 + bt_block(blocks[k as int]));
                    assert(out@ + bt_blocks(blocks.skip(k + 1)) =~= o0 + bt_blocks(
                        blocks.skip(k as int),
                    ));
                }
                k = k + 1;
            }
            proof {
                assert(blocks.skip(k as int) =~= Seq::<BtSpec>::empty());
                assert(out@ =~= mid + bt_blocks(blocks));
            }
        }
        proof {
            assert(out@ =~= toml_of(*self));
        }
        string_from_chars(&out)
    }
}

} // verus!
