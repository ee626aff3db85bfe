use vstd::prelude::*;

verus! {

/// The Unicode `White_Space` code points, which separate the scopes of a token.
pub open spec fn is_white_space(c: char) -> bool {
    let u = c as u32;
    (0x9 <= u && u <= 0xd) || u == 0x20 || u == 0x85 || u == 0xa0 || u == 0x1680
        || (0x2000 <= u && u <= 0x200a) || u == 0x2028 || u == 0x2029 || u == 0x202f
        || u == 0x205f || u == 0x3000
}

/// `s[a..b]` is a maximal run of characters that are not white space.
pub open spec fn word_at(s: Seq<char>, a: int, b: int) -> bool {
    &&& 0 <= a < b <= s.len()
    &&& forall|k: int| a <= k < b ==> !is_white_space(#[trigger] s[k])
    &&& (a == 0 || is_white_space(s[a - 1]))
    &&& (b == s.len() || is_white_space(s[b]))
}

/// The scopes named by a space-delimited scope string: its words, each once.
pub open spec fn scope_words(s: Seq<char>) -> Set<Seq<char>> {
    Set::new(|w: Seq<char>| exists|a: int, b: int| word_at(s, a, b) && s.subrange(a, b) == w)
}

/// The words of `s` that end before position `m`.
spec fn words_before(s: Seq<char>, m: int) -> Set<Seq<char>> {
    Set::new(
        |w: Seq<char>| exists|a: int, b: int| word_at(s, a, b) && b < m && s.subrange(a, b) == w,
    )
}

spec fn texts(items: Seq<String>) -> Seq<Seq<char>> {
    items.map_values(|t: String| t@)
}

fn white_space(c: char) -> (r: bool)
    ensures
        r == is_white_space(c),
{
    let u = c as u32;
    (0x9 <= u && u <= 0xd) || u == 0x20 || u == 0x85 || u == 0xa0 || u == 0x1680 || (0x2000
        <= u && u <= 0x200a) || u == 0x2028 || u == 0x2029 || u == 0x202f || u == 0x205f || u
        == 0x3000
}

/// A run that starts at `start` and is free of white space up to `b` is the
/// only word that can end at `b`.
proof fn lemma_word_start(s: Seq<char>, start: int, a: int, b: int)
    requires
        0 <= start <= b <= s.len(),
        forall|k: int| start <= k < b ==> !is_white_space(#[trigger] s[k]),
        start == 0 || is_white_space(s[start - 1]),
        word_at(s, a, b),
    ensures
        a == start,
{
    if a < start {
        assert(!is_white_space(s[start - 1]));
    } else if a > start {
        assert(!is_white_space(s[a - 1]));
    }
}

/// A set of distinct scope names.
#[derive(Debug, Clone)]
pub struct ScopeSet {
    items: Vec<String>,
}

impl View for ScopeSet {
    type V = Set<Seq<char>>;

    closed spec fn view(&self) -> Set<Seq<char>> {
        texts(self.items@).to_set()
    }
}

impl ScopeSet {
    /// Each scope is held once.
    pub closed spec fn wf(&self) -> bool {
        texts(self.items@).no_duplicates()
    }

    /// Adds `w` unless it is already present.
    fn insert(&mut self, w: String)
        requires
            old(self).wf(),
        ensures
            final(self).wf(),
            final(self)@ == old(self)@.insert(w@),
    {
        if !self.contains(w.as_str()) {
            let ghost before = texts(self.items@);
            self.items.push(w);
            proof {
                assert(texts(self.items@) =~= before.push(w@));
                broadcast use vstd::seq_lib::lemma_seq_contains_after_push;
                assert(texts(self.items@).to_set() =~= before.to_set().insert(w@));
            }
        } else {
            assert(self@ =~= self@.insert(w@));
        }
    }

    /// The scopes of a space-delimited scope string: every maximal run of
    /// characters that are not white space, duplicates collapsed.
    pub fn parse(text: &str) -> (r: ScopeSet)
        ensures
            r.wf(),
            r@ == scope_words(text@),
    {
        let ghost s = text@;
        let n = text.unicode_len();
        let mut set = ScopeSet { items: Vec::new() };
        let mut start: usize = 0;
        let mut i: usize = 0;
        assert(set@ =~= words_before(s, 0));
        while i < n
            invariant
                n == s.len(),
                s == text@,
                start <= i <= n,
                forall|k: int| start <= k < i ==> !is_white_space(#[trigger] s[k]),
                start == 0 || is_white_space(s[start - 1]),
                set.wf(),
                set@ == words_before(s, i as int),
            decreases n - i,
        {
            let c = text.get_char(i);
            if white_space(c) {
                if start < i {
                    let w = String::from_str(text.substring_char(start, i));
                    proof {
                        assert(word_at(s, start as int, i as int));
                        assert forall|w2: Seq<char>| words_before(s, i + 1).contains(w2) implies
                            words_before(s, i as int).insert(w@).contains(w2) by {
                            let (a, b) = choose|a: int, b: int|
                                word_at(s, a, b) && b < i + 1 && s.subrange(a, b) == w2;
                            if b == i {
                                lemma_word_start(s, start as int, a, b);
                            }
                        }
                        assert(words_before(s, i + 1) =~= words_before(s, i as int).insert(w@));
                    }
                    set.insert(w);
                } else {
                    proof {
                        assert forall|w2: Seq<char>| words_before(s, i + 1).contains(w2) implies
                            words_before(s, i as int).contains(w2) by {
                            let (a, b) = choose|a: int, b: int|
                                word_at(s, a, b) && b < i + 1 && s.subrange(a, b) == w2;
                            if b == i {
                                lemma_word_start(s, start as int, a, b);
                            }
                        }
                        assert(words_before(s, i + 1) =~= words_before(s, i as int));
                    }
                }
                start = i + 1;
            } else {
                proof {
                    assert(words_before(s, i + 1) =~= words_before(s, i as int));
                }
            }
            i = i + 1;
        }
        if start < n {
            let w = String::from_str(text.substring_char(start, n));
            proof {
                assert(word_at(s, start as int, n as int));
                assert forall|w2: Seq<char>| scope_words(s).contains(w2) implies words_before(
                    s,
                    n as int,
                ).insert(w@).contains(w2) by {
                    let (a, b) = choose|a: int, b: int| word_at(s, a, b) && s.subrange(a, b) == w2;
                    if b == n {
                        lemma_word_start(s, start as int, a, b);
                    }
                }
                assert(scope_words(s) =~= words_before(s, n as int).insert(w@));
            }
            set.insert(w);
        } else {
            proof {
                assert forall|w2: Seq<char>| scope_words(s).contains(w2) implies words_before(
                    s,
                    n as int,
                ).contains(w2) by {
                    let (a, b) = choose|a: int, b: int| word_at(s, a, b) && s.subrange(a, b) == w2;
                    if b == n {
                        lemma_word_start(s, start as int, a, b);
                    }
                }
                assert(scope_words(s) =~= words_before(s, n as int));
            }
        }
        set
    }

    /// Whether `scope` is one of the scopes.
    pub fn contains(&self, scope: &str) -> (r: bool)
        ensures
            r == self@.contains(scope@),
    {
        let target = String::from_str(scope);
        let mut k: usize = 0;
        while k < self.items.len()
            invariant
                k <= self.items@.len(),
                target@ == scope@,
                forall|j: int| 0 <= j < k ==> self.items@[j]@ != scope@,
            decreases self.items@.len() - k,
        {
            if self.items[k] == target {
                proof {
                    assert(texts(self.items@)[k as int] == scope@);
                }
                return true;
            }
            k = k + 1;
        }
        proof {
            if texts(self.items@).contains(scope@) {
                let j = choose|j: int| 0 <= j < texts(self.items@).len() && texts(self.items@)[j] == scope@;
                assert(self.items@[j]@ == scope@);
            }
        }
        false
    }

    /// Number of scopes.
    pub fn len(&self) -> (r: usize)
        ensures
            self.wf() ==> r == self@.len(),
    {
        proof {
            if self.wf() {
                texts(self.items@).unique_seq_to_set();
            }
        }
        self.items.len()
    }
}

} // verus!
