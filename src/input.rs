use vstd::prelude::*;
use vstd::string::StrSliceExecFns;

verus! {

/// The name of the up arrow key.
pub open spec fn up_key() -> Seq<char> {
    "ArrowUp"@
}

/// The name of the down arrow key.
pub open spec fn down_key() -> Seq<char> {
    "ArrowDown"@
}

/// The name of the left arrow key.
pub open spec fn left_key() -> Seq<char> {
    "ArrowLeft"@
}

/// The name of the right arrow key.
pub open spec fn right_key() -> Seq<char> {
    "ArrowRight"@
}

/// Whether `name` is one of the four keys that the latch tracks.
pub open spec fn is_tracked(name: Seq<char>) -> bool {
    name == up_key() || name == down_key() || name == left_key() || name == right_key()
}

/// The four key names are distinct.
pub proof fn lemma_keys_distinct()
    ensures
        up_key() != down_key(),
        up_key() != left_key(),
        up_key() != right_key(),
        down_key() != left_key(),
        down_key() != right_key(),
        left_key() != right_key(),
{
    reveal_strlit("ArrowUp");
    reveal_strlit("ArrowDown");
    reveal_strlit("ArrowLeft");
    reveal_strlit("ArrowRight");
    assert(up_key().len() != down_key().len());
    assert(up_key()[5] != left_key()[5]);
    assert(up_key().len() != right_key().len());
    assert(down_key()[5] != left_key()[5]);
    assert(down_key()[5] != right_key()[5]);
    assert(left_key()[5] != right_key()[5]);
}

/// Character-wise equality of two strings.
pub fn str_eq(a: &str, b: &str) -> (r: bool)
    ensures
        r == (a@ == b@),
{
    let n = a.unicode_len();
    if n != b.unicode_len() {
        return false;
    }
    let mut i: usize = 0;
    while i < n
        invariant
            n == a@.len(),
            n == b@.len(),
            i <= n,
            a@.subrange(0, i as int) == b@.subrange(0, i as int),
        decreases n - i,
    {
        if a.get_char(i) != b.get_char(i) {
            return false;
        }
        assert(a@.subrange(0, i + 1) == a@.subrange(0, i as int).push(a@[i as int]));
        assert(b@.subrange(0, i + 1) == b@.subrange(0, i as int).push(b@[i as int]));
        i = i + 1;
    }
    assert(a@ == a@.subrange(0, n as int));
    assert(b@ == b@.subrange(0, n as int));
    true
}

/// A latch of the pressed state of the four arrow keys.
///
/// Key-down and key-up notifications overwrite the state of a key; the tick
/// engine reads it whenever it likes.
#[derive(Clone, Copy, Debug, PartialEq, Eq, Structural)]
pub struct Input {
    up: bool,
    down: bool,
    left: bool,
    right: bool,
}

impl View for Input {
    type V = Map<Seq<char>, bool>;

    /// Each tracked key name mapped to whether it is held down.
    closed spec fn view(&self) -> Map<Seq<char>, bool> {
        map![
            up_key() => self.up,
            down_key() => self.down,
            left_key() => self.left,
            right_key() => self.right,
        ]
    }
}

impl Input {
    /// A latch with the four arrow keys tracked and all released.
    pub fn new() -> (r: Input)
        ensures
            r@.dom() == set![up_key(), down_key(), left_key(), right_key()],
            forall|k: Seq<char>| r@.contains_key(k) ==> !r@[k],
    {
        Input { up: false, down: false, left: false, right: false }
    }

    /// Records that `key_name` went down (`true`) or up (`false`); a key
    /// that is not tracked is ignored.
    pub fn set_pressed(&mut self, key_name: &str, pressed: bool)
        ensures
            is_tracked(key_name@) ==> final(self)@ == old(self)@.insert(key_name@, pressed),
            !is_tracked(key_name@) ==> *final(self) == *old(self),
    {
        proof {
            lemma_keys_distinct();
        }
        if str_eq(key_name, "ArrowUp") {
            self.up = pressed;
        } else if str_eq(key_name, "ArrowDown") {
            self.down = pressed;
        } else if str_eq(key_name, "ArrowLeft") {
            self.left = pressed;
        } else if str_eq(key_name, "ArrowRight") {
            self.right = pressed;
        }
        assert(is_tracked(key_name@) ==> final(self)@ =~= old(self)@.insert(key_name@, pressed));
    }

    /// Whether the tracked key `key_name` is held down.
    pub fn is_pressed(&self, key_name: &str) -> (r: bool)
        requires
            is_tracked(key_name@),
        ensures
            r == self@[key_name@],
    {
        proof {
            lemma_keys_distinct();
        }
        if str_eq(key_name, "ArrowUp") {
            self.up
        } else if str_eq(key_name, "ArrowDown") {
            self.down
        } else if str_eq(key_name, "ArrowLeft") {
            self.left
        } else {
            self.right
        }
    }
}

} // verus!
