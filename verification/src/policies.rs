//! The authorization and label-resolution table: maps guest-visible virtual
//! labels to physical line identifiers and the set of access modes the
//! administrator granted. Loaded once by the embedding host, read-only here.

use vstd::prelude::*;
use crate::util::str_eq;

verus! {

/// Host start-up configuration: where the policy table lives and which guest
/// component to run. The embedding host fills this in from its command line.
pub struct Config {
    pub policy_file: String,
    pub component: String,
}

impl Config {
    pub fn get_component_path(&self) -> (r: &str)
        ensures
            r@ == self.component@,
    {
        self.component.as_str()
    }
}

/// An access mode a policy entry may grant.
#[derive(Clone, Copy, PartialEq, Eq, Structural, Debug)]
pub enum Mode {
    DigitalInput,
    DigitalOutput,
    StatefulDigitalOutput,
    DigitalInputOutput,
    AnalogInput,
    AnalogOutput,
    AnalogInputOutput,
}

/// One policy entry: a virtual label, the modes granted for it, and the
/// physical line identifier backing it.
pub struct WasiGpioEntry {
    pub vlabel: String,
    pub modes: Vec<Mode>,
    pub plabel: String,
}

pub struct Wasi {
    pub gpio: Vec<WasiGpioEntry>,
}

/// The whole policy table.
pub struct Policies {
    pub wasi: Wasi,
}

/// True iff `s` starts with the characters `GPIO`: the shape every digital
/// physical identifier must have.
pub open spec fn has_gpio_prefix(s: Seq<char>) -> bool {
    s.len() >= 4 && s[0] == 'G' && s[1] == 'P' && s[2] == 'I' && s[3] == 'O'
}

/// True iff `s` names one of the four hardware PWM channels.
pub open spec fn is_pwm_channel(s: Seq<char>) -> bool {
    s == "PWM0"@ || s == "PWM1"@ || s == "PWM2"@ || s == "PWM3"@
}

/// Index of the first entry whose virtual label is `vlabel`, scanning from
/// position `i`.
pub open spec fn find_entry_from(entries: Seq<WasiGpioEntry>, vlabel: Seq<char>, i: int) -> Option<
    int,
>
    decreases entries.len() - i,
{
    if i < 0 || i >= entries.len() {
        None
    } else if entries[i].vlabel@ == vlabel {
        Some(i)
    } else {
        find_entry_from(entries, vlabel, i + 1)
    }
}

/// Whether granting `mode` on a line named `plabel` is acceptable on this
/// hardware target: analog output only on a PWM channel, analog input never.
pub open spec fn mode_grant_ok(mode: Mode, plabel: Seq<char>) -> bool {
    match mode {
        Mode::AnalogOutput => is_pwm_channel(plabel),
        Mode::AnalogInput => false,
        Mode::AnalogInputOutput => false,
        _ => true,
    }
}

pub open spec fn entry_valid(e: WasiGpioEntry) -> bool {
    forall|j: int| 0 <= j < e.modes@.len() ==> mode_grant_ok(e.modes@[j], e.plabel@)
}

impl Policies {
    pub open spec fn entries(self) -> Seq<WasiGpioEntry> {
        self.wasi.gpio@
    }

    pub open spec fn spec_find(self, vlabel: Seq<char>) -> Option<int> {
        find_entry_from(self.entries(), vlabel, 0)
    }

    /// The physical label resolution rule: the first entry for `vlabel`, if
    /// any, and only if its physical identifier has the recognized shape.
    pub open spec fn spec_get_plabel(self, vlabel: Seq<char>) -> Option<Seq<char>> {
        match self.spec_find(vlabel) {
            Some(i) => if has_gpio_prefix(self.entries()[i].plabel@) {
                Some(self.entries()[i].plabel@)
            } else {
                None
            },
            None => None,
        }
    }

    /// The authorization rule: an entry for `vlabel` exists and grants `mode`.
    /// Absence of an entry is fail-closed.
    pub open spec fn spec_mode_allowed(self, vlabel: Seq<char>, mode: Mode) -> bool {
        match self.spec_find(vlabel) {
            Some(i) => self.entries()[i].modes@.contains(mode),
            None => false,
        }
    }

    /// Every grant in the table is acceptable on this hardware target.
    pub open spec fn spec_valid(self) -> bool {
        forall|i: int| 0 <= i < self.entries().len() ==> entry_valid(#[trigger] self.entries()[i])
    }

    /// Start-up validation pass: rejects a policy that grants a
    /// hardware-unsupported analog mode, or assigns a non-PWM-channel
    /// identifier to analog output. The host refuses to start on `false`.
    pub fn validate(&self) -> (r: bool)
        ensures
            r == self.spec_valid(),
    {
        let n = self.wasi.gpio.len();
        let mut i: usize = 0;
        while i < n
            invariant
                n == self.entries().len(),
                i <= n,
                forall|k: int| 0 <= k < i ==> entry_valid(#[trigger] self.entries()[k]),
            decreases n - i,
        {
            let entry = &self.wasi.gpio[i];
            let m = entry.modes.len();
            let mut j: usize = 0;
            while j < m
                invariant
                    0 <= i < self.entries().len(),
                    entry == self.entries()[i as int],
                    m == entry.modes@.len(),
                    j <= m,
                    forall|l: int| 0 <= l < j ==> mode_grant_ok(
                        #[trigger] entry.modes@[l],
                        entry.plabel@,
                    ),
                decreases m - j,
            {
                let ok = match entry.modes[j] {
                    Mode::AnalogOutput => {
                        let p = entry.plabel.as_str();
                        str_eq(p, "PWM0") || str_eq(p, "PWM1") || str_eq(p, "PWM2") || str_eq(
                            p,
                            "PWM3",
                        )
                    },
                    Mode::AnalogInput => false,
                    Mode::AnalogInputOutput => false,
                    _ => true,
                };
                if !ok {
                    assert(!mode_grant_ok(entry.modes@[j as int], entry.plabel@));
                    assert(!entry_valid(self.entries()[i as int]));
                    return false;
                }
                j += 1;
            }
            assert(entry_valid(self.entries()[i as int]));
            i += 1;
        }
        true
    }

    /// Index of the first entry for `vlabel`, if any.
    fn find(&self, vlabel: &str) -> (r: Option<usize>)
        ensures
            match r {
                Some(i) => i < self.entries().len() && self.spec_find(vlabel@) == Some(i as int),
                None => self.spec_find(vlabel@) is None,
            },
    {
        let n = self.wasi.gpio.len();
        let mut i: usize = 0;
        while i < n
            invariant
                n == self.entries().len(),
                i <= n,
                find_entry_from(self.entries(), vlabel@, 0) == find_entry_from(
                    self.entries(),
                    vlabel@,
                    i as int,
                ),
            decreases n - i,
        {
            if str_eq(vlabel, self.wasi.gpio[i].vlabel.as_str()) {
                return Some(i);
            }
            i += 1;
        }
        None
    }

    /// Resolves a virtual label to its physical identifier, or `None` if the
    /// label is absent or its identifier does not have the recognized shape.
    pub fn get_plabel(&self, vlabel: &str) -> (r: Option<String>)
        ensures
            match r {
                Some(s) => self.spec_get_plabel(vlabel@) == Some(s@),
                None => self.spec_get_plabel(vlabel@) is None,
            },
    {
        let plabel = match self.find(vlabel) {
            Some(i) => self.wasi.gpio[i].plabel.clone(),
            None => {
                return None;
            },
        };

        if plabel.unicode_len() >= 4 && plabel.as_str().get_char(0) == 'G'
            && plabel.as_str().get_char(1) == 'P' && plabel.as_str().get_char(2) == 'I'
            && plabel.as_str().get_char(3) == 'O' {
            return Some(plabel);
        }

        None
    }

    /// True iff an entry for `vlabel` exists and grants `mode`.
    pub fn is_mode_allowed(&self, vlabel: &str, mode: Mode) -> (r: bool)
        ensures
            r == self.spec_mode_allowed(vlabel@, mode),
    {
        let idx = match self.find(vlabel) {
            Some(i) => i,
            None => {
                return false;
            },
        };
        let entry = &self.wasi.gpio[idx];

        let m = entry.modes.len();
        let mut j: usize = 0;
        while j < m
            invariant
                idx < self.entries().len(),
                self.spec_find(vlabel@) == Some(idx as int),
                entry == self.entries()[idx as int],
                m == entry.modes@.len(),
                j <= m,
                forall|l: int| 0 <= l < j ==> entry.modes@[l] != mode,
            decreases m - j,
        {
            if entry.modes[j] == mode {
                assert(entry.modes@.contains(mode));
                return true;
            }
            j += 1;
        }
        assert(!entry.modes@.contains(mode));
        false
    }
}

pub open spec fn is_digit(c: char) -> bool {
    48 <= c as u32 && c as u32 <= 57
}

pub open spec fn digit_val(c: char) -> int {
    c as u32 - 48
}

pub open spec fn all_digits(s: Seq<char>) -> bool {
    forall|i: int| 0 <= i < s.len() ==> is_digit(#[trigger] s[i])
}

/// Decimal value of a digit string, most significant digit first.
pub open spec fn digits_val(s: Seq<char>) -> int
    decreases s.len(),
{
    if s.len() == 0 {
        0
    } else {
        digits_val(s.drop_last()) * 10 + digit_val(s.last())
    }
}

proof fn lemma_digits_val_nonneg(s: Seq<char>)
    requires
        all_digits(s),
    ensures
        digits_val(s) >= 0,
    decreases s.len(),
{
    if s.len() > 0 {
        assert(all_digits(s.drop_last()));
        lemma_digits_val_nonneg(s.drop_last());
    }
}

proof fn lemma_digits_val_prefix_le(s: Seq<char>, j: int)
    requires
        all_digits(s),
        0 <= j <= s.len(),
    ensures
        digits_val(s.take(j)) <= digits_val(s),
    decreases s.len() - j,
{
    if j == s.len() {
        assert(s.take(j) =~= s);
    } else {
        lemma_digits_val_prefix_le(s, j + 1);
        assert(s.take(j + 1).drop_last() =~= s.take(j));
        assert(s.take(j + 1).last() == s[j]);
        assert(all_digits(s.take(j)));
        lemma_digits_val_nonneg(s.take(j));
        assert(digits_val(s.take(j + 1)) == digits_val(s.take(j)) * 10 + digit_val(s[j]));
    }
}

/// The physical-identifier format: `GPIO` followed by one or more decimal
/// digits whose value fits a line number. Anything else is unparseable.
pub open spec fn spec_parse_gpio(s: Seq<char>) -> Option<u8> {
    if has_gpio_prefix(s) && s.len() > 4 && all_digits(s.skip(4)) && digits_val(s.skip(4)) <= 255 {
        Some(digits_val(s.skip(4)) as u8)
    } else {
        None
    }
}

/// Reads the line number out of a physical identifier of the form
/// `GPIO<num>`.
pub fn parse_gpio_label(s: &str) -> (r: Option<u8>)
    ensures
        r == spec_parse_gpio(s@),
{
    let n = s.unicode_len();
    if n < 5 {
        return None;
    }
    if !(s.get_char(0) == 'G' && s.get_char(1) == 'P' && s.get_char(2) == 'I' && s.get_char(3)
        == 'O') {
        return None;
    }
    let ghost digits = s@.skip(4);
    let mut value: u32 = 0;
    let mut i: usize = 4;
    while i < n
        invariant
            n == s@.len(),
            5 <= n,
            4 <= i <= n,
            digits == s@.skip(4),
            all_digits(s@.subrange(4, i as int)),
            value == digits_val(s@.subrange(4, i as int)),
            value <= 255,
        decreases n - i,
    {
        let c = s.get_char(i);
        let cu = c as u32;
        if cu < 48 || cu > 57 {
            assert(digits[i - 4] == s@[i as int]);
            assert(!all_digits(digits));
            return None;
        }
        let next = value * 10 + (cu - 48);
        proof {
            assert(s@.subrange(4, i + 1).drop_last() =~= s@.subrange(4, i as int));
            assert(s@.subrange(4, i + 1).last() == s@[i as int]);
        }
        if next > 255 {
            proof {
                if all_digits(digits) {
                    assert(digits =~= s@.subrange(4, n as int));
                    assert(s@.subrange(4, i + 1) =~= digits.take(i + 1 - 4));
                    lemma_digits_val_prefix_le(digits, i + 1 - 4);
                    assert(digits_val(digits) > 255);
                }
            }
            return None;
        }
        value = next;
        i += 1;
    }
    proof {
        assert(s@.subrange(4, n as int) =~= digits);
    }
    Some(value as u8)
}

/// Law: for a virtual label absent from the policy, authorization fails for
/// every mode.
pub proof fn lemma_absent_label_denies(p: Policies, vlabel: Seq<char>, mode: Mode)
    requires
        p.spec_find(vlabel) is None,
    ensures
        !p.spec_mode_allowed(vlabel, mode),
{
}

} // verus!
