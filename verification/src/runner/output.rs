//! Naming and tagging the output of an experiment with its settings.
//!
//! Each experiment registers its settings (already serialized as JSON) in
//! an `OutputManager`, which names output files after the settings marked
//! important and a timestamp, and keeps all settings for the `.params`
//! file.

use vstd::prelude::*;
use crate::text::{owned, push_str, replace_all, replace_str, str_eq, str_le, str_le_exec, trim, trim_spec};

verus! {

/// Manages the naming and tagging of an experiment's output.
pub struct OutputManager {
    /// The settings and their JSON values, ordered by name, each name once.
    pub settings: Vec<(String, String)>,
    /// The names of the settings that appear in file names, in order.
    pub important: Vec<String>,
    /// The time the experiment started, as `%Y-%m-%d-%H-%M-%S`.
    pub timestamp: String,
}

/// Whether `a` comes strictly before `b` in the order of names.
pub open spec fn name_lt(a: Seq<char>, b: Seq<char>) -> bool {
    str_le(a, b) && a != b
}

/// Whether the settings are ordered strictly by name.
pub open spec fn settings_sorted(s: Seq<(String, String)>) -> bool {
    forall|i: int, j: int| 0 <= i < j < s.len() ==> name_lt((#[trigger] s[i]).0@, (#[trigger] s[j]).0@)
}

/// Whether setting `n` is registered.
pub open spec fn has_setting(s: Seq<(String, String)>, n: Seq<char>) -> bool {
    exists|i: int| 0 <= i < s.len() && (#[trigger] s[i]).0@ == n
}

/// The value of setting `n` (meaningful if it is registered).
pub open spec fn setting_value(s: Seq<(String, String)>, n: Seq<char>) -> Seq<char> {
    s[choose|i: int| 0 <= i < s.len() && (#[trigger] s[i]).0@ == n].1@
}

/// A setting value as it appears in a file name: trimmed, with spaces and
/// quotes turned into underscores.
pub open spec fn sanitize(v: Seq<char>) -> Seq<char> {
    replace_all(replace_all(replace_all(trim_spec(v), " "@, "_"@), "\""@, "_"@), "'"@, "_"@)
}

/// The important settings as they appear in a file name: each name
/// followed by its sanitized value, separated by dashes.
pub open spec fn important_part(s: Seq<(String, String)>, important: Seq<String>) -> Seq<char>
    decreases important.len(),
{
    if important.len() == 0 {
        Seq::empty()
    } else {
        important_part(s, important.drop_last()) + (if important.len() > 1 {
            "-"@
        } else {
            Seq::empty()
        }) + important.last()@ + sanitize(setting_value(s, important.last()@))
    }
}

/// The file name with extension `ext`: the important settings, a dash, the
/// timestamp, a dot and the extension.
pub open spec fn file_name(m: OutputManager, ext: Seq<char>) -> Seq<char> {
    important_part(m.settings@, m.important@) + "-"@ + m.timestamp@ + "."@ + ext
}

/// Whether `c` is an ASCII decimal digit.
pub open spec fn is_digit(c: char) -> bool {
    '0' <= c <= '9'
}

/// Whether `s` has the shape of a time rendered as `%Y-%m-%d-%H-%M-%S`: a
/// year of at least four digits (with a sign before it outside the years
/// 0 to 9999), then five two-digit fields, each after a dash.
pub open spec fn timestamp_shaped(s: Seq<char>) -> bool {
    let y = s.len() - 15;
    &&& s.len() >= 19
    &&& (is_digit(s[0]) || s[0] == '+' || s[0] == '-')
    &&& forall|i: int| 1 <= i < y ==> is_digit(#[trigger] s[i])
    &&& forall|k: int|
        0 <= k < 5 ==> #[trigger] s[y + 3 * k] == '-' && is_digit(s[y + 3 * k + 1]) && is_digit(s[y + 3 * k + 2])
}

/// The current local time as `%Y-%m-%d-%H-%M-%S`
/// (`chrono::Local::now().format(..)`). The time depends on the clock, so
/// only the shape of the text is stated: chrono writes the year with at
/// least four digits (signed outside 0 to 9999) and the month, day, hour,
/// minute and second with two zero-padded digits each.
#[verifier::external_body]
fn local_timestamp() -> (r: String)
    ensures
        timestamp_shaped(r@),
{
    chrono::Local::now().format("%Y-%m-%d-%H-%M-%S").to_string()
}

impl OutputManager {
    /// The manager's invariant: settings ordered by name and each important
    /// setting registered.
    pub open spec fn wf(&self) -> bool {
        &&& settings_sorted(self.settings@)
        &&& forall|i: int| 0 <= i < self.important@.len() ==> has_setting(self.settings@, (#[trigger] self.important@[i])@)
    }

    /// A manager with no settings, stamped with the current time.
    pub fn new() -> (m: OutputManager)
        ensures
            m.wf(),
            m.settings@.len() == 0,
            m.important@.len() == 0,
            timestamp_shaped(m.timestamp@),
    {
        OutputManager::with_timestamp(local_timestamp())
    }

    /// A manager with no settings and the given timestamp.
    pub fn with_timestamp(timestamp: String) -> (m: OutputManager)
        ensures
            m.wf(),
            m.settings@.len() == 0,
            m.important@.len() == 0,
            m.timestamp == timestamp,
    {
        OutputManager { settings: Vec::new(), important: Vec::new(), timestamp }
    }

    /// The position of setting `name`, if registered.
    fn find(&self, name: &str) -> (r: Option<usize>)
        requires
            settings_sorted(self.settings@),
        ensures
            r matches Some(i) ==> i < self.settings@.len() && self.settings@[i as int].0@ == name@,
            r is None ==> !has_setting(self.settings@, name@),
    {
        let mut i: usize = 0;
        while i < self.settings.len()
            invariant
                i <= self.settings@.len(),
                forall|k: int| 0 <= k < i ==> (#[trigger] self.settings@[k]).0@ != name@,
            decreases self.settings@.len() - i,
        {
            if str_eq(self.settings[i].0.as_str(), name) {
                return Some(i);
            }
            i = i + 1;
        }
        None
    }

    /// Whether setting `name` is registered.
    pub fn is_registered(&self, name: &str) -> (r: bool)
        requires
            self.wf(),
        ensures
            r == has_setting(self.settings@, name@),
    {
        self.find(name).is_some()
    }

    /// Registers setting `name` with the JSON text `value`; an important
    /// setting also names the output files. A name may be registered once.
    pub fn register(&mut self, name: &str, value: String, important: bool)
        requires
            old(self).wf(),
            !has_setting(old(self).settings@, name@),
        ensures
            final(self).wf(),
            has_setting(final(self).settings@, name@),
            setting_value(final(self).settings@, name@) == value@,
            final(self).settings@.len() == old(self).settings@.len() + 1,
            forall|n: Seq<char>| n != name@ ==> has_setting(final(self).settings@, n) == has_setting(old(self).settings@, n),
            forall|n: Seq<char>| n != name@ && has_setting(old(self).settings@, n)
                ==> setting_value(final(self).settings@, n) == setting_value(old(self).settings@, n),
            final(self).important@ == (if important { old(self).important@.push(final(self).important@.last()) } else { old(self).important@ }),
            important ==> final(self).important@.last()@ == name@,
            final(self).timestamp == old(self).timestamp,
    {
        let ghost s0 = self.settings@;
        let mut k: usize = 0;
        while k < self.settings.len() && str_le_exec(self.settings[k].0.as_str(), name)
            invariant
                k <= self.settings@.len(),
                self.settings@ == s0,
                forall|m: int| 0 <= m < k ==> str_le((#[trigger] s0[m]).0@, name@),
            decreases self.settings@.len() - k,
        {
            k = k + 1;
        }
        let entry = (owned(name), value);
        self.settings.insert(k, entry);
        let ghost s1 = self.settings@;
        proof {
            assert(s1[k as int].0@ == name@);
            assert forall|a: int, b: int| 0 <= a < b < s1.len() implies name_lt((#[trigger] s1[a]).0@, (#[trigger] s1[b]).0@) by {
                if b < k {
                    assert(s1[a] == s0[a] && s1[b] == s0[b]);
                } else if b == k {
                    assert(s1[a] == s0[a]);
                    assert(str_le(s0[a].0@, name@));
                    assert(s0[a].0@ != name@);
                } else if a > k {
                    assert(s1[a] == s0[a - 1] && s1[b] == s0[b - 1]);
                } else if a == k {
                    assert(s1[b] == s0[b - 1]);
                    assert(!str_le(s0[k as int].0@, name@));
                    crate::text::lemma_str_le_total(s0[k as int].0@, name@);
                    if b - 1 > k {
                        crate::text::lemma_str_le_trans(name@, s0[k as int].0@, s0[b - 1].0@);
                    }
                    if s0[b - 1].0@ == name@ {
                        assert(has_setting(s0, name@));
                    }
                } else {
                    assert(s1[a] == s0[a] && s1[b] == s0[b - 1]);
                }
            }
            assert forall|n: Seq<char>| n != name@ implies has_setting(s1, n) == has_setting(s0, n) by {
                if has_setting(s0, n) {
                    let i = choose|i: int| 0 <= i < s0.len() && (#[trigger] s0[i]).0@ == n;
                    if i < k {
                        assert(s1[i] == s0[i]);
                    } else {
                        assert(s1[i + 1] == s0[i]);
                    }
                }
                if has_setting(s1, n) {
                    let i = choose|i: int| 0 <= i < s1.len() && (#[trigger] s1[i]).0@ == n;
                    if i < k {
                        assert(s1[i] == s0[i]);
                    } else if i > k {
                        assert(s1[i] == s0[i - 1]);
                    }
                }
            }
            assert(has_setting(s1, name@));
            let c = choose|i: int| 0 <= i < s1.len() && (#[trigger] s1[i]).0@ == name@;
            assert(c == k) by {
                if c != k {
                    if c < k {
                        assert(name_lt(s1[c].0@, s1[k as int].0@));
                    } else {
                        assert(name_lt(s1[k as int].0@, s1[c].0@));
                    }
                }
            }
            assert forall|n: Seq<char>| n != name@ && has_setting(s0, n) implies setting_value(s1, n) == setting_value(s0, n) by {
                let i0 = choose|i: int| 0 <= i < s0.len() && (#[trigger] s0[i]).0@ == n;
                let i1 = choose|i: int| 0 <= i < s1.len() && (#[trigger] s1[i]).0@ == n;
                let j = if i0 < k { i0 } else { i0 + 1 };
                assert(s1[j] == s0[i0]);
                assert(i1 == j) by {
                    if i1 != j {
                        if i1 < j {
                            assert(name_lt(s1[i1].0@, s1[j].0@));
                        } else {
                            assert(name_lt(s1[j].0@, s1[i1].0@));
                        }
                    }
                }
            }
        }
        if important {
            self.important.push(owned(name));
        }
        proof {
            assert forall|i: int| 0 <= i < self.important@.len() implies has_setting(self.settings@, (#[trigger] self.important@[i])@) by {
                if i < old(self).important@.len() {
                    assert(self.important@[i] == old(self).important@[i]);
                    assert(has_setting(s0, old(self).important@[i]@));
                    if old(self).important@[i]@ == name@ {
                    }
                }
            }
        }
    }

    /// The JSON text of setting `name`.
    pub fn get(&self, name: &str) -> (r: String)
        requires
            self.wf(),
            has_setting(self.settings@, name@),
        ensures
            r@ == setting_value(self.settings@, name@),
    {
        match self.find(name) {
            Some(i) => {
                proof {
                    let c = choose|j: int| 0 <= j < self.settings@.len() && (#[trigger] self.settings@[j]).0@ == name@;
                    assert(c == i) by {
                        if c != i {
                            if c < i {
                                assert(name_lt(self.settings@[c].0@, self.settings@[i as int].0@));
                            } else {
                                assert(name_lt(self.settings@[i as int].0@, self.settings@[c].0@));
                            }
                        }
                    }
                }
                self.settings[i].1.clone()
            },
            None => String::new(),
        }
    }

    /// Appends setting `name` and its sanitized value to `string`.
    fn append_setting(&self, string: &mut String, name: &str)
        requires
            self.wf(),
            has_setting(self.settings@, name@),
        ensures
            final(string)@ == old(string)@ + name@ + sanitize(setting_value(self.settings@, name@)),
    {
        proof {
            reveal_strlit(" ");
            reveal_strlit("\"");
            reveal_strlit("'");
        }
        let val = self.get(name);
        let val = trim(val.as_str());
        let val = replace_str(val.as_str(), " ", "_");
        let val = replace_str(val.as_str(), "\"", "_");
        let val = replace_str(val.as_str(), "'", "_");
        push_str(string, name);
        push_str(string, val.as_str());
    }

    /// The name of an output file with extension `ext` (without the dot).
    pub fn gen_file_name(&self, ext: &str) -> (r: String)
        requires
            self.wf(),
        ensures
            r@ == file_name(*self, ext@),
    {
        let mut base = String::new();
        let mut i: usize = 0;
        while i < self.important.len()
            invariant
                self.wf(),
                i <= self.important@.len(),
                base@ == important_part(self.settings@, self.important@.take(i as int)),
            decreases self.important@.len() - i,
        {
            assert(self.important@.take(i + 1).drop_last() =~= self.important@.take(i as int));
            assert(self.important@.take(i + 1).last() == self.important@[i as int]);
            if i > 0 {
                push_str(&mut base, "-");
            }
            assert(has_setting(self.settings@, self.important@[i as int]@));
            self.append_setting(&mut base, self.important[i].as_str());
            i = i + 1;
        }
        assert(self.important@.take(i as int) =~= self.important@);
        push_str(&mut base, "-");
        push_str(&mut base, self.timestamp.as_str());
        push_str(&mut base, ".");
        push_str(&mut base, ext);
        base
    }

    /// The names of the primary output file and the params file, in that
    /// order.
    pub fn gen_file_names(&self) -> (r: (String, String))
        requires
            self.wf(),
        ensures
            r.0@ == file_name(*self, "out"@),
            r.1@ == file_name(*self, "params"@),
    {
        (self.gen_file_name("out"), self.gen_file_name("params"))
    }

    /// A manager holding the given settings (as read back from a `.params`
    /// file), with no important settings, stamped with the current time.
    pub fn from_settings(settings: Vec<(String, String)>) -> (m: OutputManager)
        requires
            settings_sorted(settings@),
        ensures
            m.wf(),
            m.settings@ == settings@,
            m.important@.len() == 0,
            timestamp_shaped(m.timestamp@),
    {
        OutputManager { settings, important: Vec::new(), timestamp: local_timestamp() }
    }

    /// The settings and their JSON values, ordered by name (what the
    /// `.params` file holds).
    pub fn settings_list(&self) -> (r: Vec<(String, String)>)
        ensures
            r@ == self.settings@,
    {
        crate::jobserver::proto::clone_pairs(&self.settings)
    }
}

} // verus!
