//! Settings of the bridge: the LED command for each Teams presence state,
//! the watchdog command, polling and heartbeat intervals, brightness and
//! crossfade duration.

use vstd::prelude::*;
use crate::protocol::{CMD_BREATHE, CMD_BREATHE_SLOW, CMD_OFF, CMD_SOLID};
use crate::text::{chars_of, decimal, push_decimal, same_text, string_from_chars};

verus! {

/// An LED command: an animation name (`OFF`, `SOLID`, `BREATHE`,
/// `BREATHE_SLOW`) and a color.
pub struct ColorCommand {
    pub command: String,
    pub r: u8,
    pub g: u8,
    pub b: u8,
}

/// The mathematical value of a color command: name, red, green, blue.
pub type ColorSpec = (Seq<char>, u8, u8, u8);

impl View for ColorCommand {
    type V = ColorSpec;

    open spec fn view(&self) -> ColorSpec {
        (self.command@, self.r, self.g, self.b)
    }
}

impl Clone for ColorCommand {
    fn clone(&self) -> (c: Self)
        ensures
            c@ == self@,
    {
        ColorCommand { command: self.command.clone(), r: self.r, g: self.g, b: self.b }
    }
}

/// The line of the text protocol for a command: `OFF\n` turns the LEDs off
/// and carries no color; any other command is `NAME:R,G,B\n`, with decimal
/// components.
pub open spec fn serial_line(command: Seq<char>, r: u8, g: u8, b: u8) -> Seq<char> {
    if command == "OFF"@ {
        "OFF"@ + seq!['\n']
    } else {
        command + seq![':'] + decimal(r as nat) + seq![','] + decimal(g as nat) + seq![','] + decimal(
            b as nat,
        ) + seq!['\n']
    }
}

/// The HID command id of an animation name: `OFF`, `BREATHE` and
/// `BREATHE_SLOW` have their own ids; any other name is a solid color.
pub open spec fn command_id_of(name: Seq<char>) -> u8 {
    if name == "OFF"@ {
        CMD_OFF
    } else if name == "BREATHE"@ {
        CMD_BREATHE
    } else if name == "BREATHE_SLOW"@ {
        CMD_BREATHE_SLOW
    } else {
        CMD_SOLID
    }
}

/// The HID command id and parameters of a color command: `OFF` carries
/// zeros, every other command carries its color.
pub open spec fn hid_params_of(c: ColorSpec) -> (u8, u8, u8, u8) {
    let id = command_id_of(c.0);
    if id == CMD_OFF {
        (CMD_OFF, 0, 0, 0)
    } else {
        (id, c.1, c.2, c.3)
    }
}

impl ColorCommand {
    /// A color command from its parts.
    pub fn new(command: String, r: u8, g: u8, b: u8) -> (c: Self)
        ensures
            c@ == (command@, r, g, b),
    {
        ColorCommand { command, r, g, b }
    }

    /// The command as a line of the text protocol: `NAME:R,G,B\n`.
    pub fn to_serial_command(&self) -> (line: String)
        ensures
            line@ == serial_line(self.command@, self.r, self.g, self.b),
    {
        if same_text(self.command.as_str(), "OFF") {
            let mut off = chars_of("OFF");
            off.push('\n');
            return string_from_chars(off.as_slice());
        }
        let mut out = chars_of(self.command.as_str());
        out.push(':');
        push_decimal(&mut out, self.r as u64);
        out.push(',');
        push_decimal(&mut out, self.g as u64);
        out.push(',');
        push_decimal(&mut out, self.b as u64);
        out.push('\n');
        assert(out@ =~= serial_line(self.command@, self.r, self.g, self.b));
        string_from_chars(out.as_slice())
    }

    /// The HID command id and the three parameters that carry this command.
    pub fn to_hid_params(&self) -> (params: (u8, u8, u8, u8))
        ensures
            params == hid_params_of(self@),
    {
        let name = self.command.as_str();
        if same_text(name, "OFF") {
            (CMD_OFF, 0, 0, 0)
        } else if same_text(name, "BREATHE") {
            (CMD_BREATHE, self.r, self.g, self.b)
        } else if same_text(name, "BREATHE_SLOW") {
            (CMD_BREATHE_SLOW, self.r, self.g, self.b)
        } else {
            (CMD_SOLID, self.r, self.g, self.b)
        }
    }
}


/// The LED command of each presence state, at most one per state.
pub struct PresenceMap {
    entries: Vec<(String, ColorCommand)>,
}

/// The states and commands of a list of entries, as mathematical values.
pub open spec fn entries_spec(entries: Seq<(String, ColorCommand)>) -> Seq<(Seq<char>, ColorSpec)> {
    entries.map_values(|e: (String, ColorCommand)| (e.0@, e.1@))
}

/// No state occurs twice among the entries.
pub open spec fn keys_distinct(es: Seq<(Seq<char>, ColorSpec)>) -> bool {
    forall|i: int, j: int| 0 <= i < es.len() && 0 <= j < es.len() && i != j ==> es[i].0 != es[j].0
}

/// Whether some entry is for `key`.
pub open spec fn has_key(es: Seq<(Seq<char>, ColorSpec)>, key: Seq<char>) -> bool {
    exists|i: int| 0 <= i < es.len() && es[i].0 == key
}

/// The map from state to command that a list of distinct entries denotes.
pub open spec fn map_of(es: Seq<(Seq<char>, ColorSpec)>) -> Map<Seq<char>, ColorSpec> {
    Map::new(
        |k: Seq<char>| has_key(es, k),
        |k: Seq<char>| es[choose|i: int| 0 <= i < es.len() && es[i].0 == k].1,
    )
}

/// With distinct keys, the entry at `i` is what the map holds for its key.
pub proof fn lemma_map_of_entry(es: Seq<(Seq<char>, ColorSpec)>, i: int)
    requires
        keys_distinct(es),
        0 <= i < es.len(),
    ensures
        map_of(es).contains_key(es[i].0),
        map_of(es)[es[i].0] == es[i].1,
{
    let k = es[i].0;
    assert(has_key(es, k));
    let j = choose|j: int| 0 <= j < es.len() && es[j].0 == k;
    assert(j == i);
}

impl View for PresenceMap {
    type V = Map<Seq<char>, ColorSpec>;

    closed spec fn view(&self) -> Map<Seq<char>, ColorSpec> {
        map_of(entries_spec(self.entries@))
    }
}

impl PresenceMap {
    #[verifier::type_invariant]
    closed spec fn inv(self) -> bool {
        keys_distinct(entries_spec(self.entries@))
    }

    /// The empty map.
    pub fn new() -> (m: Self)
        ensures
            m@ == Map::<Seq<char>, ColorSpec>::empty(),
    {
        let m = PresenceMap { entries: Vec::new() };
        assert(m@ =~= Map::<Seq<char>, ColorSpec>::empty());
        m
    }

    /// Number of states that have a command.
    pub fn len(&self) -> (n: usize)
        ensures
            n == self@.len(),
            self@.dom().finite(),
    {
        proof {
            use_type_invariant(self);
            self.lemma_len();
        }
        self.entries.len()
    }

    proof fn lemma_len(&self)
        requires
            self.inv(),
        ensures
            self@.dom().finite(),
            self@.len() == self.entries@.len(),
    {
        let es = entries_spec(self.entries@);
        let keys = es.map_values(|e: (Seq<char>, ColorSpec)| e.0);
        assert(self@.dom() =~= keys.to_set()) by {
            assert forall|k: Seq<char>| self@.dom().contains(k) implies keys.to_set().contains(k) by {
                let i = choose|i: int| 0 <= i < es.len() && es[i].0 == k;
                assert(keys[i] == k);
            }
            assert forall|k: Seq<char>| keys.to_set().contains(k) implies self@.dom().contains(k) by {
                let i = choose|i: int| 0 <= i < keys.len() && keys[i] == k;
                assert(es[i].0 == k);
            }
        }
        assert(keys.no_duplicates());
        keys.unique_seq_to_set();
    }

    /// The command for `state`, if there is one.
    pub fn get(&self, state: &str) -> (c: Option<&ColorCommand>)
        ensures
            c is Some <==> self@.contains_key(state@),
            c matches Some(cmd) ==> cmd@ == self@[state@],
    {
        proof {
            use_type_invariant(self);
        }
        let ghost es = entries_spec(self.entries@);
        let n = self.entries.len();
        for i in 0..n
            invariant
                n == self.entries@.len(),
                es == entries_spec(self.entries@),
                keys_distinct(es),
                forall|j: int| 0 <= j < i ==> es[j].0 != state@,
        {
            if same_text(self.entries[i].0.as_str(), state) {
                proof {
                    lemma_map_of_entry(es, i as int);
                }
                return Some(&self.entries[i].1);
            }
        }
        assert(!has_key(es, state@));
        None
    }

    /// Sets the command for `state`, replacing any earlier one.
    pub fn insert(&mut self, state: String, command: ColorCommand)
        ensures
            final(self)@ == old(self)@.insert(state@, command@),
    {
        proof {
            use_type_invariant(&*self);
        }
        let ghost es = entries_spec(self.entries@);
        let n = self.entries.len();
        let mut found: Option<usize> = None;
        for i in 0..n
            invariant
                n == self.entries@.len(),
                es == entries_spec(self.entries@),
                keys_distinct(es),
                found matches Some(k) ==> k < n && es[k as int].0 == state@,
                found is None ==> forall|j: int| 0 <= j < i ==> es[j].0 != state@,
        {
            if found.is_none() && same_text(self.entries[i].0.as_str(), state.as_str()) {
                found = Some(i);
            }
        }
        let ghost new_entry = (state@, command@);
        match found {
            Some(k) => {
                let ghost es2 = es.update(k as int, new_entry);
                assert(keys_distinct(es2));
                let mut entries: Vec<(String, ColorCommand)> = Vec::new();
                std::mem::swap(&mut entries, &mut self.entries);
                entries.set(k, (state, command));
                assert(entries_spec(entries@) =~= es2);
                self.entries = entries;
                assert(map_of(es2) =~= map_of(es).insert(new_entry.0, new_entry.1)) by {
                    assert forall|key: Seq<char>| #[trigger] map_of(es2).contains_key(key) == map_of(es).insert(new_entry.0, new_entry.1).contains_key(key) by {
                        if key == new_entry.0 {
                            lemma_map_of_entry(es2, k as int);
                            lemma_map_of_entry(es, k as int);
                        } else if has_key(es2, key) {
                            let j = choose|j: int| 0 <= j < es2.len() && es2[j].0 == key;
                            assert(es[j].0 == key);
                        } else if has_key(es, key) {
                            let j = choose|j: int| 0 <= j < es.len() && es[j].0 == key;
                            assert(es2[j].0 == key);
                        }
                    }
                    assert forall|key: Seq<char>| #[trigger] map_of(es2).contains_key(key) implies map_of(es2)[key] == map_of(es).insert(new_entry.0, new_entry.1)[key] by {
                        let j = choose|j: int| 0 <= j < es2.len() && es2[j].0 == key;
                        lemma_map_of_entry(es2, j);
                        if key != new_entry.0 {
                            lemma_map_of_entry(es, j);
                        }
                    }
                }
            },
            None => {
                let ghost es2 = es.push(new_entry);
                assert(keys_distinct(es2));
                let mut entries: Vec<(String, ColorCommand)> = Vec::new();
                std::mem::swap(&mut entries, &mut self.entries);
                entries.push((state, command));
                assert(entries_spec(entries@) =~= es2);
                self.entries = entries;
                assert(map_of(es2) =~= map_of(es).insert(new_entry.0, new_entry.1)) by {
                    assert forall|key: Seq<char>| #[trigger] map_of(es2).contains_key(key) == map_of(es).insert(new_entry.0, new_entry.1).contains_key(key) by {
                        if key == new_entry.0 {
                            lemma_map_of_entry(es2, es.len() as int);
                        } else if has_key(es2, key) {
                            let j = choose|j: int| 0 <= j < es2.len() && es2[j].0 == key;
                            assert(es[j].0 == key);
                        } else if has_key(es, key) {
                            let j = choose|j: int| 0 <= j < es.len() && es[j].0 == key;
                            assert(es2[j].0 == key);
                        }
                    }
                    assert forall|key: Seq<char>| #[trigger] map_of(es2).contains_key(key) implies map_of(es2)[key] == map_of(es).insert(new_entry.0, new_entry.1)[key] by {
                        let j = choose|j: int| 0 <= j < es2.len() && es2[j].0 == key;
                        lemma_map_of_entry(es2, j);
                        if key != new_entry.0 {
                            lemma_map_of_entry(es, j);
                        }
                    }
                }
            },
        }
    }

    /// The `i`-th state and its command, in the order of insertion.
    pub fn entry(&self, i: usize) -> (e: (&String, &ColorCommand))
        requires
            i < self@.len(),
        ensures
            self@.contains_key(e.0@),
            self@[e.0@] == e.1@,
    {
        proof {
            use_type_invariant(self);
            self.lemma_len();
            lemma_map_of_entry(entries_spec(self.entries@), i as int);
        }
        let e = &self.entries[i];
        (&e.0, &e.1)
    }
}

impl Clone for PresenceMap {
    fn clone(&self) -> (m: Self)
        ensures
            m@ == self@,
    {
        proof {
            use_type_invariant(self);
        }
        let n = self.entries.len();
        let mut entries: Vec<(String, ColorCommand)> = Vec::new();
        for i in 0..n
            invariant
                n == self.entries@.len(),
                entries_spec(entries@) =~= entries_spec(self.entries@).take(i as int),
        {
            let e = &self.entries[i];
            let ghost before = entries@;
            entries.push((e.0.clone(), e.1.clone()));
            assert(entries_spec(entries@) =~= entries_spec(before).push(
                entries_spec(self.entries@)[i as int],
            ));
            assert(entries_spec(self.entries@).take(i + 1) =~= entries_spec(self.entries@).take(
                i as int,
            ).push(entries_spec(self.entries@)[i as int]));
        }
        assert(entries_spec(entries@) =~= entries_spec(self.entries@));
        PresenceMap { entries }
    }
}


/// The settings of the bridge.
pub struct Config {
    /// Serial port name, or `AUTO` to pick one.
    pub com_port: String,
    /// How often the Teams presence is polled, in milliseconds.
    pub poll_interval_ms: u64,
    /// How often a heartbeat is sent, in milliseconds.
    pub ping_interval_ms: u64,
    /// The command for each known presence state.
    pub presence_map: PresenceMap,
    /// The command for a presence state that the map does not know.
    pub watchdog: ColorCommand,
    /// Global LED brightness.
    pub brightness: u8,
    /// Crossfade duration between LED states, in milliseconds (0 disables it).
    pub transition_duration_ms: u16,
}

/// The mathematical value of the settings.
pub struct ConfigSpec {
    pub com_port: Seq<char>,
    pub poll_interval_ms: u64,
    pub ping_interval_ms: u64,
    pub presence_map: Map<Seq<char>, ColorSpec>,
    pub watchdog: ColorSpec,
    pub brightness: u8,
    pub transition_duration_ms: u16,
}

impl View for Config {
    type V = ConfigSpec;

    open spec fn view(&self) -> ConfigSpec {
        ConfigSpec {
            com_port: self.com_port@,
            poll_interval_ms: self.poll_interval_ms,
            ping_interval_ms: self.ping_interval_ms,
            presence_map: self.presence_map@,
            watchdog: self.watchdog@,
            brightness: self.brightness,
            transition_duration_ms: self.transition_duration_ms,
        }
    }
}

/// The command that the settings give a presence state: its entry in the
/// map, or the watchdog command for a state that the map does not know.
pub open spec fn command_for_spec(c: ConfigSpec, presence: Seq<char>) -> ColorSpec {
    if c.presence_map.contains_key(presence) {
        c.presence_map[presence]
    } else {
        c.watchdog
    }
}

impl Clone for Config {
    fn clone(&self) -> (c: Self)
        ensures
            c@ == self@,
    {
        Config {
            com_port: self.com_port.clone(),
            poll_interval_ms: self.poll_interval_ms,
            ping_interval_ms: self.ping_interval_ms,
            presence_map: self.presence_map.clone(),
            watchdog: self.watchdog.clone(),
            brightness: self.brightness,
            transition_duration_ms: self.transition_duration_ms,
        }
    }
}

/// The command of each presence state in the default settings: green when
/// available, red when busy or not to be disturbed, an amber or orange
/// breathing when away or right back, off when offline.
pub open spec fn default_presence_map() -> Map<Seq<char>, ColorSpec> {
    map![
        "Available"@ => ("SOLID"@, 0u8, 200u8, 0u8),
        "Busy"@ => ("SOLID"@, 200u8, 0u8, 0u8),
        "DoNotDisturb"@ => ("SOLID"@, 200u8, 0u8, 0u8),
        "Away"@ => ("BREATHE"@, 255u8, 120u8, 0u8),
        "BeRightBack"@ => ("BREATHE"@, 255u8, 80u8, 0u8),
        "Offline"@ => ("OFF"@, 0u8, 0u8, 0u8)
    ]
}

/// Default heartbeat interval, in milliseconds.
pub const DEFAULT_PING_INTERVAL_MS: u64 = 15000;

/// Default global brightness: full.
pub const DEFAULT_BRIGHTNESS: u8 = 255;
/// Default crossfade duration: none.
pub const DEFAULT_TRANSITION_MS: u16 = 0;

fn command(name: &str, r: u8, g: u8, b: u8) -> (c: ColorCommand)
    ensures
        c@ == (name@, r, g, b),
{
    ColorCommand { command: name.to_owned(), r, g, b }
}

impl Default for Config {
    fn default() -> (c: Self)
        ensures
            c.com_port@ == "AUTO"@,
            c.poll_interval_ms == 5000,
            c.ping_interval_ms == DEFAULT_PING_INTERVAL_MS,
            c.presence_map@ == default_presence_map(),
            c.watchdog@ == ("BREATHE"@, 80u8, 80u8, 80u8),
            c.brightness == DEFAULT_BRIGHTNESS,
            c.transition_duration_ms == DEFAULT_TRANSITION_MS,
    {
        let mut presence_map = PresenceMap::new();
        presence_map.insert("Available".to_owned(), command("SOLID", 0, 200, 0));
        presence_map.insert("Busy".to_owned(), command("SOLID", 200, 0, 0));
        presence_map.insert("DoNotDisturb".to_owned(), command("SOLID", 200, 0, 0));
        presence_map.insert("Away".to_owned(), command("BREATHE", 255, 120, 0));
        presence_map.insert("BeRightBack".to_owned(), command("BREATHE", 255, 80, 0));
        presence_map.insert("Offline".to_owned(), command("OFF", 0, 0, 0));
        assert(presence_map@ =~= default_presence_map());
        Config {
            com_port: "AUTO".to_owned(),
            poll_interval_ms: 5000,
            ping_interval_ms: DEFAULT_PING_INTERVAL_MS,
            presence_map,
            watchdog: command("BREATHE", 80, 80, 80),
            brightness: DEFAULT_BRIGHTNESS,
            transition_duration_ms: DEFAULT_TRANSITION_MS,
        }
    }
}

impl Config {
    /// The command for a presence state: its entry in the map, or the
    /// watchdog command for a state that the map does not know.
    pub fn command_for(&self, presence: &str) -> (c: &ColorCommand)
        ensures
            c@ == command_for_spec(self@, presence@),
    {
        match self.presence_map.get(presence) {
            Some(c) => c,
            None => &self.watchdog,
        }
    }
}


/// What `get` returns for a state after `insert` set it is the inserted
/// command; every other state keeps its command.
pub proof fn law_lookup_after_insert(
    m: Map<Seq<char>, ColorSpec>,
    state: Seq<char>,
    command: ColorSpec,
    other: Seq<char>,
)
    requires
        other != state,
    ensures
        m.insert(state, command).contains_key(state),
        m.insert(state, command)[state] == command,
        m.insert(state, command).contains_key(other) == m.contains_key(other),
        m.contains_key(other) ==> m.insert(state, command)[other] == m[other],
{
}


/// A presence state that the settings map gets exactly its own command, and
/// is shown with that command's HID parameters; only a state that the map
/// lacks gets the watchdog command.
pub proof fn law_mapped_presence_uses_its_command(c: ConfigSpec, presence: Seq<char>)
    ensures
        c.presence_map.contains_key(presence) ==> command_for_spec(c, presence) == c.presence_map[presence],
        !c.presence_map.contains_key(presence) ==> command_for_spec(c, presence) == c.watchdog,
{
}

/// An `OFF` command turns the LEDs off whatever its color (command 0x02 with
/// zero parameters); every other command keeps its color and has an id of
/// its own, never that of `OFF`.
pub proof fn law_off_means_off(name: Seq<char>, r: u8, g: u8, b: u8)
    ensures
        name == "OFF"@ ==> hid_params_of((name, r, g, b)) == (CMD_OFF, 0u8, 0u8, 0u8),
        name != "OFF"@ ==> hid_params_of((name, r, g, b)).0 != CMD_OFF
            && hid_params_of((name, r, g, b)).1 == r && hid_params_of((name, r, g, b)).2 == g
            && hid_params_of((name, r, g, b)).3 == b,
{
}

} // verus!
