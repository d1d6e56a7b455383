use vstd::prelude::*;

verus! {

/// The settings that a configuration file may give: the MIDI note of each pad, and the names
/// of the MIDI client and port.
pub struct Settings {
    pub notemaps: Vec<u8>,
    pub client_name: String,
    pub port_name: String,
}

/// The MIDI note of each pad by default, pad 0 first.
pub open spec fn default_notemaps() -> Seq<u8> {
    seq![49u8, 27, 31, 57, 48, 47, 43, 59, 36, 38, 46, 51, 36, 38, 42, 44]
}

/// The character of decimal digit `d`.
pub open spec fn digit_char(d: nat) -> char {
    if d == 0 {
        '0'
    } else if d == 1 {
        '1'
    } else if d == 2 {
        '2'
    } else if d == 3 {
        '3'
    } else if d == 4 {
        '4'
    } else if d == 5 {
        '5'
    } else if d == 6 {
        '6'
    } else if d == 7 {
        '7'
    } else if d == 8 {
        '8'
    } else {
        '9'
    }
}

/// The decimal notation of `n`, without leading zeros.
pub open spec fn decimal(n: nat) -> Seq<char>
    decreases n,
{
    if n < 10 {
        seq![digit_char(n)]
    } else {
        decimal(n / 10).push(digit_char(n % 10))
    }
}

/// Returns the one-character string of decimal digit `d`.
fn digit_str(d: usize) -> (s: &'static str)
    requires
        d < 10,
    ensures
        s@ == seq![digit_char(d as nat)],
{
    proof {
        reveal_strlit("0");
        reveal_strlit("1");
        reveal_strlit("2");
        reveal_strlit("3");
        reveal_strlit("4");
        reveal_strlit("5");
        reveal_strlit("6");
        reveal_strlit("7");
        reveal_strlit("8");
        reveal_strlit("9");
    }
    match d {
        0 => "0",
        1 => "1",
        2 => "2",
        3 => "3",
        4 => "4",
        5 => "5",
        6 => "6",
        7 => "7",
        8 => "8",
        _ => "9",
    }
}

/// Returns the decimal notation of `n`.
pub fn decimal_string(n: usize) -> (s: String)
    ensures
        s@ == decimal(n as nat),
    decreases n,
{
    if n < 10 {
        String::from_str(digit_str(n))
    } else {
        let mut s = decimal_string(n / 10);
        s.append(digit_str(n % 10));
        s
    }
}

/// The message that explains a wrong number of pad notes.
pub open spec fn pad_count_message(found: nat) -> Seq<char> {
    "The should be 16 pads exactly (found "@ + decimal(found) + ")"@
}

impl Settings {
    /// The first problem that `validate` reports of settings with these fields, or `None`
    /// where they are valid: 16 pad notes, each a MIDI note (below 128), and non-empty client
    /// and port names.
    pub open spec fn problem(notemaps: Seq<u8>, client_name: Seq<char>, port_name: Seq<char>) -> Option<Seq<char>> {
        if notemaps.len() != 16 {
            Some(pad_count_message(notemaps.len()))
        } else if exists|i: int| 0 <= i < notemaps.len() && notemaps[i] >= 128 {
            Some("MIDI notes should be 0 to 127"@)
        } else if client_name.len() == 0 {
            Some("Client name must not be empty"@)
        } else if port_name.len() == 0 {
            Some("Port name must not be empty"@)
        } else {
            None
        }
    }

    /// Checks the settings: `Ok` exactly where they are valid, else `Err` with the message of
    /// the first problem found.
    pub fn validate(&self) -> (r: Result<(), String>)
        ensures
            match r {
                Ok(()) => Settings::problem(self.notemaps@, self.client_name@, self.port_name@) is None,
                Err(e) => Settings::problem(self.notemaps@, self.client_name@, self.port_name@)
                    == Some(e@),
            },
            r is Ok <==> {
                &&& self.notemaps@.len() == 16
                &&& forall|i: int| 0 <= i < 16 ==> self.notemaps@[i] < 128
                &&& self.client_name@.len() > 0
                &&& self.port_name@.len() > 0
            },
    {
        let padcnt = self.notemaps.len();
        if padcnt != 16 {
            let mut e = String::from_str("The should be 16 pads exactly (found ");
            e.append(decimal_string(padcnt).as_str());
            e.append(")");
            return Err(e);
        }
        let mut i: usize = 0;
        while i < padcnt
            invariant
                padcnt == self.notemaps@.len(),
                padcnt == 16,
                i <= padcnt,
                forall|k: int| 0 <= k < i ==> self.notemaps@[k] < 128,
            decreases padcnt - i,
        {
            if self.notemaps[i] >= 128 {
                assert(self.notemaps@[i as int] >= 128);
                return Err(String::from_str("MIDI notes should be 0 to 127"));
            }
            i = i + 1;
        }
        if self.client_name.as_str().is_empty() {
            return Err(String::from_str("Client name must not be empty"));
        }
        if self.port_name.as_str().is_empty() {
            return Err(String::from_str("Port name must not be empty"));
        }
        Ok(())
    }
}

impl Default for Settings {
    /// The default settings: the factory pad notes and the device's own names.
    fn default() -> (s: Settings)
        ensures
            s.notemaps@ == default_notemaps(),
            s.client_name@ == "Maschine Mikro MK3"@,
            s.port_name@ == "Maschine Mikro Mk3 MIDI Out"@,
    {
        let notemaps: Vec<u8> = vec![49, 27, 31, 57, 48, 47, 43, 59, 36, 38, 46, 51, 36, 38, 42, 44];
        assert(notemaps@ =~= default_notemaps());
        Settings {
            notemaps,
            client_name: String::from_str("Maschine Mikro MK3"),
            port_name: String::from_str("Maschine Mikro Mk3 MIDI Out"),
        }
    }
}

/// The default settings are valid.
pub proof fn lemma_default_settings_valid()
    ensures
        Settings::problem(default_notemaps(), "Maschine Mikro MK3"@, "Maschine Mikro Mk3 MIDI Out"@)
            is None,
{
    reveal_strlit("Maschine Mikro MK3");
    reveal_strlit("Maschine Mikro Mk3 MIDI Out");
}

/// The rules of validation, one by one: settings are valid exactly where there are 16 pad
/// notes, each below 128, and both names are non-empty. A wrong pad count is reported first,
/// with the count found; then a note of 128 or more, wherever it stands; then an empty client
/// name; then an empty port name.
pub proof fn lemma_validation_rules(notemaps: Seq<u8>, client_name: Seq<char>, port_name: Seq<char>)
    ensures
        Settings::problem(notemaps, client_name, port_name) is None <==> {
            &&& notemaps.len() == 16
            &&& forall|i: int| 0 <= i < 16 ==> notemaps[i] < 128
            &&& client_name.len() > 0
            &&& port_name.len() > 0
        },
        notemaps.len() != 16 ==> Settings::problem(notemaps, client_name, port_name) == Some(
            "The should be 16 pads exactly (found "@ + decimal(notemaps.len()) + ")"@,
        ),
        forall|i: int|
            notemaps.len() == 16 && 0 <= i < 16 && notemaps[i] >= 128 ==> Settings::problem(
                notemaps,
                client_name,
                port_name,
            ) == Some("MIDI notes should be 0 to 127"@),
        (notemaps.len() == 16 && (forall|i: int| 0 <= i < 16 ==> notemaps[i] < 128)
            && client_name.len() == 0) ==> Settings::problem(notemaps, client_name, port_name)
            == Some("Client name must not be empty"@),
        (notemaps.len() == 16 && (forall|i: int| 0 <= i < 16 ==> notemaps[i] < 128)
            && client_name.len() > 0 && port_name.len() == 0) ==> Settings::problem(
            notemaps,
            client_name,
            port_name,
        ) == Some("Port name must not be empty"@),
{
}

} // verus!
