//! PIN entry on the lock screen and PIN setup in the settings, as state
//! machines driven by keypad presses.
use vstd::prelude::*;
use crate::text::{chars_of, owned, string_of};

verus! {

/// The number of digits of a PIN.
pub const PIN_LENGTH: usize = 4;

/// A keypad key: one ASCII digit, or backspace `⌫`.
pub open spec fn is_pin_key(key: Seq<char>) -> bool {
    key == "⌫"@ || (key.len() == 1 && '0' <= key[0] <= '9')
}

/// A PIN typed so far: ASCII digits only.
pub open spec fn digits_only(s: Seq<char>) -> bool {
    forall|i: int| 0 <= i < s.len() ==> '0' <= #[trigger] s[i] <= '9'
}

/// The lock screen: the digits typed, and whether the last PIN was wrong.
pub struct PinEntry {
    pub input: String,
    pub error: bool,
}

fn is_backspace(key: &str) -> (b: bool)
    ensures
        b == (key@ == "⌫"@),
{
    let k = owned(key);
    let bs = owned("⌫");
    k == bs
}

fn char_count(s: &str) -> (n: usize)
    ensures
        n == s@.len(),
{
    s.unicode_len()
}

fn without_last(s: &str) -> (r: String)
    requires
        s@.len() > 0,
    ensures
        r@ == s@.drop_last(),
{
    let cs = chars_of(s);
    string_of(&cs, 0, cs.len() - 1)
}

/// One key press on the lock screen: `after` and `check` (a PIN to check)
/// follow from `before` and `key`.
pub open spec fn entry_pressed(before: PinEntry, key: Seq<char>, after: PinEntry, check: Option<String>) -> bool {
    &&& (key == "⌫"@ ==> check is None && if before.input@.len() > 0 {
                after.input@ == before.input@.drop_last() && !after.error
            } else {
                after.input@ == before.input@ && after.error == before.error
            })
    &&& (key != "⌫"@ ==> if before.input@.len() >= PIN_LENGTH {
                after.input@ == before.input@ && after.error == before.error && check is None
            } else {
                &&& after.input@ == before.input@ + key
                &&& !after.error
                &&& (after.input@.len() == PIN_LENGTH) == (check is Some)
                &&& check matches Some(p) ==> p@ == after.input@
            })
}

impl PinEntry {
    /// An empty lock screen.
    pub fn new() -> (e: Self)
        ensures
            e.input@ == Seq::<char>::empty(),
            !e.error,
    {
        PinEntry { input: String::new(), error: false }
    }

    /// Takes a key press.  Backspace removes the last digit; a digit is
    /// appended unless the PIN is complete.  Either clears the error mark.
    /// When the fourth digit is typed, the PIN is handed back for checking.
    pub fn press(self, key: &str) -> (res: (PinEntry, Option<String>))
        requires
            is_pin_key(key@),
            digits_only(self.input@),
            self.input@.len() <= PIN_LENGTH,
        ensures
            digits_only(res.0.input@),
            res.0.input@.len() <= PIN_LENGTH,
            entry_pressed(self, key@, res.0, res.1),
    {
        let n = char_count(self.input.as_str());
        if is_backspace(key) {
            if n > 0 {
                let input = without_last(self.input.as_str());
                (PinEntry { input, error: false }, None)
            } else {
                (self, None)
            }
        } else {
            if n >= PIN_LENGTH {
                return (self, None);
            }
            let mut input = self.input;
            input.append(key);
            if n + 1 == PIN_LENGTH {
                let pin = input.clone();
                (PinEntry { input, error: false }, Some(pin))
            } else {
                (PinEntry { input, error: false }, None)
            }
        }
    }

    /// Takes the verdict on a complete PIN: the input is cleared either way;
    /// a wrong PIN is marked as an error; a right one unlocks.
    pub fn verdict(self, correct: bool) -> (res: (PinEntry, bool))
        ensures
            res.0.input@ == Seq::<char>::empty(),
            res.0.error == !correct,
            res.1 == correct,
    {
        (PinEntry { input: String::new(), error: !correct }, correct)
    }
}

/// PIN setup: the digits typed, the first entry awaiting confirmation, the
/// step (0 = first entry, 1 = confirmation), the error shown, and whether
/// setup is still under way.
pub struct PinSetup {
    pub input: String,
    pub confirm: String,
    pub step: u8,
    pub error: String,
    pub setup_mode: bool,
}

/// One key press of PIN setup: `after` and `saved` follow from `before`
/// and `key`.
pub open spec fn setup_pressed(before: PinSetup, key: Seq<char>, after: PinSetup, saved: Option<String>) -> bool {
    &&& (key == "⌫"@ ==> saved is None && after.confirm@ == before.confirm@ && after.step
                == before.step && after.setup_mode == before.setup_mode && if before.input@.len() > 0 {
                after.input@ == before.input@.drop_last() && after.error@ == Seq::<char>::empty()
            } else {
                after.input@ == before.input@ && after.error@ == before.error@
            })
    &&& (key != "⌫"@ && before.input@.len() >= PIN_LENGTH ==> {
                &&& saved is None
                &&& after.input@ == before.input@
                &&& after.confirm@ == before.confirm@
                &&& after.step == before.step
                &&& after.error@ == before.error@
                &&& after.setup_mode == before.setup_mode
            })
    &&& (key != "⌫"@ && before.input@.len() < PIN_LENGTH ==> {
                let typed = before.input@ + key;
                if typed.len() < PIN_LENGTH {
                    &&& saved is None
                    &&& after.input@ == typed
                    &&& after.confirm@ == before.confirm@
                    &&& after.step == before.step
                    &&& after.error@ == Seq::<char>::empty()
                    &&& after.setup_mode == before.setup_mode
                } else if before.step == 0 {
                    &&& saved is None
                    &&& after.input@ == Seq::<char>::empty()
                    &&& after.confirm@ == typed
                    &&& after.step == 1
                    &&& after.error@ == Seq::<char>::empty()
                    &&& after.setup_mode == before.setup_mode
                } else if typed == before.confirm@ {
                    &&& saved matches Some(p) && p@ == typed
                    &&& after.input@ == Seq::<char>::empty()
                    &&& after.confirm@ == Seq::<char>::empty()
                    &&& after.step == before.step
                    &&& after.error@ == Seq::<char>::empty()
                    &&& !after.setup_mode
                } else {
                    &&& saved is None
                    &&& after.input@ == Seq::<char>::empty()
                    &&& after.confirm@ == before.confirm@
                    &&& after.step == before.step
                    &&& after.error@ == "PIN-коды не совпадают"@
                    &&& after.setup_mode == before.setup_mode
                }
            })
}

impl PinSetup {
    /// Setup at its first entry.
    pub fn new() -> (s: Self)
        ensures
            s.input@ == Seq::<char>::empty(),
            s.confirm@ == Seq::<char>::empty(),
            s.step == 0,
            s.error@ == Seq::<char>::empty(),
            s.setup_mode,
    {
        PinSetup {
            input: String::new(),
            confirm: String::new(),
            step: 0,
            error: String::new(),
            setup_mode: true,
        }
    }

    /// Takes a key press.  The fourth digit of the first entry becomes the
    /// PIN to confirm; the fourth digit of the confirmation either saves the
    /// PIN (returned) when both entries match, or reports the mismatch.
    pub fn press(self, key: &str) -> (res: (PinSetup, Option<String>))
        requires
            is_pin_key(key@),
            digits_only(self.input@),
            self.input@.len() <= PIN_LENGTH,
        ensures
            digits_only(res.0.input@),
            res.0.input@.len() <= PIN_LENGTH,
            setup_pressed(self, key@, res.0, res.1),
    {
        let n = char_count(self.input.as_str());
        let PinSetup { input, confirm, step, error, setup_mode } = self;
        if is_backspace(key) {
            if n > 0 {
                let shorter = without_last(input.as_str());
                (PinSetup { input: shorter, confirm, step, error: String::new(), setup_mode }, None)
            } else {
                (PinSetup { input, confirm, step, error, setup_mode }, None)
            }
        } else {
            if n >= PIN_LENGTH {
                return (PinSetup { input, confirm, step, error, setup_mode }, None);
            }
            let mut typed = input;
            typed.append(key);
            if n + 1 < PIN_LENGTH {
                (PinSetup { input: typed, confirm, step, error: String::new(), setup_mode }, None)
            } else if step == 0 {
                (
                    PinSetup {
                        input: String::new(),
                        confirm: typed,
                        step: 1,
                        error: String::new(),
                        setup_mode,
                    },
                    None,
                )
            } else if typed == confirm {
                (
                    PinSetup {
                        input: String::new(),
                        confirm: String::new(),
                        step,
                        error: String::new(),
                        setup_mode: false,
                    },
                    Some(typed),
                )
            } else {
                (
                    PinSetup {
                        input: String::new(),
                        confirm,
                        step,
                        error: owned("PIN-коды не совпадают"),
                        setup_mode,
                    },
                    None,
                )
            }
        }
    }
}

/// A PIN is saved only when the confirmation repeats the first entry: what
/// is saved is the complete PIN that was waiting for confirmation, and setup
/// ends.
pub proof fn law_saved_pin_was_confirmed(before: PinSetup, key: Seq<char>, after: PinSetup, saved: Option<String>)
    requires
        is_pin_key(key),
        setup_pressed(before, key, after, saved),
    ensures
        saved matches Some(p) ==> {
            &&& p@ == before.confirm@
            &&& p@.len() == PIN_LENGTH
            &&& before.step != 0
            &&& !after.setup_mode
        },
{
}

/// The lock screen hands a PIN over for checking only once it is complete.
pub proof fn law_pin_checked_only_when_complete(before: PinEntry, key: Seq<char>, after: PinEntry, check: Option<String>)
    requires
        is_pin_key(key),
        digits_only(before.input@),
        before.input@.len() <= PIN_LENGTH,
        entry_pressed(before, key, after, check),
    ensures
        check matches Some(p) ==> p@.len() == PIN_LENGTH && p@ == after.input@,
{
}

} // verus!
