use vstd::prelude::*;

verus! {

/// Total number of sections on the map.
pub const SECTION_COUNT: usize = 5;

/// Total number of sub-sections within each section.
pub const SUB_SECTION_COUNT: usize = 5;

/// A car part that can be hidden in a sub-section.
///
/// `Absent` marks a sub-section that holds no part.
#[derive(Clone, Copy, PartialEq, Eq, Structural, Debug)]
pub enum CarPart {
    /// No part is hidden here.
    Absent,
    Battery,
    Gasoline,
    Keys,
    SparkPlug,
    Wheel,
}

/// A named cell within a section; may hold a hidden car part.
pub struct SubSection {
    /// Display name of the sub-section.
    pub name: String,
    /// Single-letter identifier of the sub-section.
    pub letter: char,
    /// The car part hidden here, if any.
    pub part: CarPart,
}

/// A named area of the map holding a fixed number of sub-sections.
pub struct Section {
    /// Display name of the section.
    pub name: String,
    /// Single-letter identifier of the section.
    pub letter: char,
    /// The sub-sections within this section.
    pub sub_sections: Vec<SubSection>,
    /// Whether the killer triggers a trap by searching this section.
    pub trapped: bool,
}

/// A type of round in the game.
#[derive(Clone, Copy, PartialEq, Eq, Structural, Debug)]
pub enum RoundType {
    /// A normal round where the victim and killer choose any section and
    /// sub-section to search.
    Normal,
    /// A chase round where the victim and killer are limited to the section
    /// with the given index.
    Chase(usize),
}

/// The result of a round of the game.
#[derive(Clone, Copy, PartialEq, Eq, Structural, Debug)]
pub enum RoundResult {
    /// Nothing happens.
    Nothing,
    /// The killer caught the victim.
    Caught,
    /// The victim evaded the killer during a chase.
    Evaded,
    /// The victim and killer chose the same section, beginning a chase.
    ChaseBegins,
    /// The killer triggered a trap.
    TrapTriggered,
}

/// The errors that can occur while playing a round.
#[derive(Clone, Copy, PartialEq, Eq, Structural, Debug)]
pub enum PlayError {
    /// Some index was out of bounds.
    OutOfBounds,
}

/// Result type of playing a round: the round result and the car part found,
/// or a bounds error.
pub type PlayResult = Result<(RoundResult, CarPart), PlayError>;

/// A move is within bounds when both of its indices are below the fixed counts.
pub open spec fn move_in_bounds(m: (usize, usize)) -> bool {
    m.0 < SECTION_COUNT && m.1 < SUB_SECTION_COUNT
}

/// During a chase both moves must name the section the chase takes place in;
/// a normal round places no such restriction.
pub open spec fn chase_ok(rt: RoundType, victim: (usize, usize), killer: (usize, usize)) -> bool {
    match rt {
        RoundType::Normal => true,
        RoundType::Chase(l) => victim.0 == l && killer.0 == l,
    }
}

/// A pair of moves is accepted when both are within bounds and both respect
/// an ongoing chase.
pub open spec fn moves_accepted(rt: RoundType, victim: (usize, usize), killer: (usize, usize)) -> bool {
    move_in_bounds(victim) && move_in_bounds(killer) && chase_ok(rt, victim, killer)
}

/// The round type that is active after a round with the given outcome: a
/// beginning chase is confined to the victim's section, a round where nothing
/// happens keeps the current round type, and every other outcome ends any
/// chase.
pub open spec fn spec_next_mode(rt: RoundType, outcome: RoundResult, victim: (usize, usize)) -> RoundType {
    match outcome {
        RoundResult::ChaseBegins => RoundType::Chase(victim.0),
        RoundResult::Nothing => rt,
        _ => RoundType::Normal,
    }
}

/// The single-letter identifier of section `i` on the initial map.
pub open spec fn spec_section_letter(i: int) -> char {
    if i == 0 {
        'C'
    } else if i == 1 {
        'L'
    } else if i == 2 {
        'A'
    } else if i == 3 {
        'B'
    } else {
        'O'
    }
}

/// The display name of section `i` on the initial map.
pub open spec fn spec_section_name(i: int) -> Seq<char> {
    if i == 0 {
        "(C)abin"@
    } else if i == 1 {
        "(L)ake Misty"@
    } else if i == 2 {
        "(A)bandoned manor"@
    } else if i == 3 {
        "(B)onfire"@
    } else {
        "(O)ld forest"@
    }
}

/// The single-letter identifier of sub-section `j` of section `i` on the
/// initial map.
pub open spec fn spec_sub_letter(i: int, j: int) -> char {
    if i == 0 {
        if j == 0 { 'B' } else if j == 1 { 'K' } else if j == 2 { 'T' } else if j == 3 { 'C' } else { 'A' }
    } else if i == 1 {
        if j == 0 { 'D' } else if j == 1 { 'B' } else if j == 2 { 'E' } else if j == 3 { 'W' } else { 'S' }
    } else if i == 2 {
        if j == 0 { 'M' } else if j == 1 { 'D' } else if j == 2 { 'B' } else if j == 3 { 'K' } else { 'F' }
    } else if i == 3 {
        if j == 0 { 'S' } else if j == 1 { 'C' } else if j == 2 { 'L' } else if j == 3 { 'T' } else { 'B' }
    } else {
        if j == 0 { 'P' } else if j == 1 { 'C' } else if j == 2 { 'S' } else if j == 3 { 'F' } else { 'H' }
    }
}

/// The display name of sub-section `j` of section `i` on the initial map.
pub open spec fn spec_sub_name(i: int, j: int) -> Seq<char> {
    if i == 0 {
        if j == 0 {
            "(B)edroom"@
        } else if j == 1 {
            "(K)itchen"@
        } else if j == 2 {
            "(T)oilet"@
        } else if j == 3 {
            "(C)loset"@
        } else {
            "(A)ttic"@
        }
    } else if i == 1 {
        if j == 0 {
            "(D)ock"@
        } else if j == 1 {
            "(B)oat"@
        } else if j == 2 {
            "(E)ast shore"@
        } else if j == 3 {
            "(W)est shore"@
        } else {
            "(S)outh shore"@
        }
    } else if i == 2 {
        if j == 0 {
            "(M)aster bedroom"@
        } else if j == 1 {
            "(D)ining hall"@
        } else if j == 2 {
            "(B)asement"@
        } else if j == 3 {
            "(K)itchen"@
        } else {
            "(F)ourier"@
        }
    } else if i == 3 {
        if j == 0 {
            "(S)hrubs"@
        } else if j == 1 {
            "(C)ouch"@
        } else if j == 2 {
            "(L)ogs"@
        } else if j == 3 {
            "(T)rees"@
        } else {
            "(B)lankets"@
        }
    } else {
        if j == 0 {
            "(P)ond"@
        } else if j == 1 {
            "(C)ave"@
        } else if j == 2 {
            "(S)hrine"@
        } else if j == 3 {
            "(F)airy circle"@
        } else {
            "(H)ollow log"@
        }
    }
}

/// Sub-section `j` of section `i` is in its initial state: its fixed name and
/// letter, and no car part hidden.
pub open spec fn spec_initial_sub(s: SubSection, i: int, j: int) -> bool {
    &&& s.name@ == spec_sub_name(i, j)
    &&& s.letter == spec_sub_letter(i, j)
    &&& s.part == CarPart::Absent
}

/// Section `i` is in its initial state: its fixed name and letter, no trap
/// set, and five initial sub-sections.
pub open spec fn spec_initial_section(s: Section, i: int) -> bool {
    &&& s.name@ == spec_section_name(i)
    &&& s.letter == spec_section_letter(i)
    &&& !s.trapped
    &&& s.sub_sections.len() == SUB_SECTION_COUNT
    &&& forall|j: int|
        0 <= j < s.sub_sections.len() ==> spec_initial_sub(#[trigger] s.sub_sections[j], i, j)
}

/// The freshly created game: a normal round ahead and the fixed topology of
/// five sections of five sub-sections each, all parts absent, no traps set.
pub open spec fn spec_initial(gs: GameState) -> bool {
    &&& gs.round_type == RoundType::Normal
    &&& gs.sections.len() == SECTION_COUNT
    &&& forall|i: int|
        0 <= i < gs.sections.len() ==> spec_initial_section(#[trigger] gs.sections[i], i)
}

/// `(i, j)` locates the letter pair `c1`/`c2`: section `i` carries the letter
/// `c1` and its sub-section `j` carries the letter `c2`.
pub open spec fn found_pair(sections: Seq<Section>, c1: char, c2: char, i: int, j: int) -> bool {
    &&& 0 <= i < sections.len()
    &&& sections[i].letter == c1
    &&& 0 <= j < sections[i].sub_sections.len()
    &&& sections[i].sub_sections[j].letter == c2
}

/// Law: precedence of the trap check. Whenever the killer's chosen section is
/// trapped and the moves are accepted, the round's outcome is
/// `TrapTriggered`, whatever the round type and the rest of the two moves
/// say.
pub proof fn lemma_trap_precedence(gs: GameState, victim: (usize, usize), killer: (usize, usize))
    requires
        gs.wf(),
        moves_accepted(gs.round_type, victim, killer),
        gs.sections[killer.0 as int].trapped,
    ensures
        gs.spec_outcome(victim, killer) == RoundResult::TrapTriggered,
{
}

/// Create a sub-section with no car part hidden in it.
fn make_sub(name: &str, letter: char) -> (r: SubSection)
    ensures
        r.name@ == name@,
        r.letter == letter,
        r.part == CarPart::Absent,
{
    SubSection { name: String::from_str(name), letter: letter, part: CarPart::Absent }
}

/// Structure describing the current state of the game.
pub struct GameState {
    /// Sections within the game.
    pub sections: Vec<Section>,
    /// Type of round to occur next.
    pub round_type: RoundType,
}

impl GameState {
    /// Well-formedness: the fixed counts hold and a chase names a real section.
    pub open spec fn wf(self) -> bool {
        &&& self.sections.len() == SECTION_COUNT
        &&& forall|i: int|
            0 <= i < self.sections.len() ==> (#[trigger] self.sections[i]).sub_sections.len()
                == SUB_SECTION_COUNT
        &&& match self.round_type {
            RoundType::Normal => true,
            RoundType::Chase(l) => l < SECTION_COUNT,
        }
    }

    /// The outcome of a round played on this state with accepted moves, in
    /// order of precedence: a trapped section chosen by the killer always
    /// wins, then an exact match, then an ongoing chase, then a shared
    /// section, and otherwise nothing.
    pub open spec fn spec_outcome(self, victim: (usize, usize), killer: (usize, usize)) -> RoundResult
        recommends
            self.wf(),
            moves_accepted(self.round_type, victim, killer),
    {
        if self.sections[killer.0 as int].trapped {
            RoundResult::TrapTriggered
        } else if victim.0 == killer.0 && victim.1 == killer.1 {
            RoundResult::Caught
        } else if self.round_type is Chase {
            RoundResult::Evaded
        } else if victim.0 == killer.0 {
            RoundResult::ChaseBegins
        } else {
            RoundResult::Nothing
        }
    }

    /// Constructor: the fixed initial map and a normal first round.
    pub fn new() -> (r: GameState)
        ensures
            r.wf(),
            spec_initial(r),
    {
        // Create sections
        let mut cabin_subs: Vec<SubSection> = Vec::new();
        cabin_subs.push(make_sub("(B)edroom", 'B'));
        cabin_subs.push(make_sub("(K)itchen", 'K'));
        cabin_subs.push(make_sub("(T)oilet", 'T'));
        cabin_subs.push(make_sub("(C)loset", 'C'));
        cabin_subs.push(make_sub("(A)ttic", 'A'));
        proof {
            assert(forall|j: int|
                0 <= j < cabin_subs@.len() ==> spec_initial_sub(#[trigger] cabin_subs@[j], 0, j));
        }
        let cabin = Section {
            name: String::from_str("(C)abin"),
            letter: 'C',
            sub_sections: cabin_subs,
            trapped: false,
        };

        let mut lake_subs: Vec<SubSection> = Vec::new();
        lake_subs.push(make_sub("(D)ock", 'D'));
        lake_subs.push(make_sub("(B)oat", 'B'));
        lake_subs.push(make_sub("(E)ast shore", 'E'));
        lake_subs.push(make_sub("(W)est shore", 'W'));
        lake_subs.push(make_sub("(S)outh shore", 'S'));
        proof {
            assert(forall|j: int|
                0 <= j < lake_subs@.len() ==> spec_initial_sub(#[trigger] lake_subs@[j], 1, j));
        }
        let lake_misty = Section {
            name: String::from_str("(L)ake Misty"),
            letter: 'L',
            sub_sections: lake_subs,
            trapped: false,
        };

        let mut manor_subs: Vec<SubSection> = Vec::new();
        manor_subs.push(make_sub("(M)aster bedroom", 'M'));
        manor_subs.push(make_sub("(D)ining hall", 'D'));
        manor_subs.push(make_sub("(B)asement", 'B'));
        manor_subs.push(make_sub("(K)itchen", 'K'));
        manor_subs.push(make_sub("(F)ourier", 'F'));
        proof {
            assert(forall|j: int|
                0 <= j < manor_subs@.len() ==> spec_initial_sub(#[trigger] manor_subs@[j], 2, j));
        }
        let abandoned_manor = Section {
            name: String::from_str("(A)bandoned manor"),
            letter: 'A',
            sub_sections: manor_subs,
            trapped: false,
        };

        let mut bonfire_subs: Vec<SubSection> = Vec::new();
        bonfire_subs.push(make_sub("(S)hrubs", 'S'));
        bonfire_subs.push(make_sub("(C)ouch", 'C'));
        bonfire_subs.push(make_sub("(L)ogs", 'L'));
        bonfire_subs.push(make_sub("(T)rees", 'T'));
        bonfire_subs.push(make_sub("(B)lankets", 'B'));
        proof {
            assert(forall|j: int|
                0 <= j < bonfire_subs@.len() ==> spec_initial_sub(
                    #[trigger] bonfire_subs@[j],
                    3,
                    j,
                ));
        }
        let bonfire = Section {
            name: String::from_str("(B)onfire"),
            letter: 'B',
            sub_sections: bonfire_subs,
            trapped: false,
        };

        let mut forest_subs: Vec<SubSection> = Vec::new();
        forest_subs.push(make_sub("(P)ond", 'P'));
        forest_subs.push(make_sub("(C)ave", 'C'));
        forest_subs.push(make_sub("(S)hrine", 'S'));
        forest_subs.push(make_sub("(F)airy circle", 'F'));
        forest_subs.push(make_sub("(H)ollow log", 'H'));
        proof {
            assert(forall|j: int|
                0 <= j < forest_subs@.len() ==> spec_initial_sub(#[trigger] forest_subs@[j], 4, j));
        }
        let old_forest = Section {
            name: String::from_str("(O)ld forest"),
            letter: 'O',
            sub_sections: forest_subs,
            trapped: false,
        };

        proof {
            assert(spec_initial_section(cabin, 0));
            assert(spec_initial_section(lake_misty, 1));
            assert(spec_initial_section(abandoned_manor, 2));
            assert(spec_initial_section(bonfire, 3));
            assert(spec_initial_section(old_forest, 4));
        }

        // Construct game state
        let mut sections: Vec<Section> = Vec::new();
        sections.push(cabin);
        sections.push(lake_misty);
        sections.push(abandoned_manor);
        sections.push(bonfire);
        sections.push(old_forest);
        let r = GameState { sections, round_type: RoundType::Normal };
        proof {
            assert(forall|i: int|
                0 <= i < r.sections@.len() ==> spec_initial_section(#[trigger] r.sections@[i], i));
        }
        r
    }

    /// Get a tuple containing the index of a section and sub-section
    /// respectively by letter identifier.
    ///
    /// The first section whose letter matches and which contains a
    /// sub-section with the matching letter wins, and within that section the
    /// first matching sub-section wins; the inner scan is deliberately
    /// restricted to the sub-sections of the section that matched the outer
    /// letter, so the second index always names a cell of the first.
    ///
    /// If the indices were not found, will return None.
    pub fn get_inds_by_letter(&self, section_char: char, sub_section_char: char) -> (r: Option<
        (usize, usize),
    >)
        ensures
            match r {
                Some(p) => {
                    &&& found_pair(
                        self.sections@,
                        section_char,
                        sub_section_char,
                        p.0 as int,
                        p.1 as int,
                    )
                    &&& forall|i2: int, j2: int|
                        #[trigger] found_pair(
                            self.sections@,
                            section_char,
                            sub_section_char,
                            i2,
                            j2,
                        ) ==> p.0 <= i2
                    &&& forall|j2: int|
                        #[trigger] found_pair(
                            self.sections@,
                            section_char,
                            sub_section_char,
                            p.0 as int,
                            j2,
                        ) ==> p.1 <= j2
                },
                None => forall|i2: int, j2: int|
                    !(#[trigger] found_pair(
                        self.sections@,
                        section_char,
                        sub_section_char,
                        i2,
                        j2,
                    )),
            },
    {
        let mut i: usize = 0;
        while i < self.sections.len()
            invariant
                i <= self.sections.len(),
                forall|i2: int, j2: int|
                    i2 < i ==> !(#[trigger] found_pair(
                        self.sections@,
                        section_char,
                        sub_section_char,
                        i2,
                        j2,
                    )),
            decreases self.sections.len() - i,
        {
            if self.sections[i].letter == section_char {
                let subs_len = self.sections[i].sub_sections.len();
                let mut j: usize = 0;
                while j < subs_len
                    invariant
                        i < self.sections.len(),
                        j <= subs_len,
                        subs_len == self.sections@[i as int].sub_sections.len(),
                        self.sections@[i as int].letter == section_char,
                        forall|i2: int, j2: int|
                            i2 < i ==> !(#[trigger] found_pair(
                                self.sections@,
                                section_char,
                                sub_section_char,
                                i2,
                                j2,
                            )),
                        forall|j2: int|
                            0 <= j2 < j ==> self.sections@[i as int].sub_sections[j2].letter
                                != sub_section_char,
                    decreases subs_len - j,
                {
                    if self.sections[i].sub_sections[j].letter == sub_section_char {
                        return Some((i, j));
                    }
                    j += 1;
                }
            }
            i += 1;
        }
        None
    }

    /// Hide a car part in a sub-section by index.
    ///
    /// Callers validate the indices; `play` is the place where out-of-bounds
    /// indices are rejected with an error.
    pub fn hide_part(&mut self, section: usize, sub_section: usize, part: CarPart)
        requires
            old(self).wf(),
            section < SECTION_COUNT,
            sub_section < SUB_SECTION_COUNT,
        ensures
            final(self).wf(),
            final(self).round_type == old(self).round_type,
            final(self).sections.len() == old(self).sections.len(),
            forall|i: int|
                0 <= i < final(self).sections.len() && i != section ==> final(self).sections[i]
                    == old(self).sections[i],
            final(self).sections[section as int].name == old(self).sections[section as int].name,
            final(self).sections[section as int].letter == old(
                self,
            ).sections[section as int].letter,
            final(self).sections[section as int].trapped == old(
                self,
            ).sections[section as int].trapped,
            final(self).sections[section as int].sub_sections.len() == old(
                self,
            ).sections[section as int].sub_sections.len(),
            forall|j: int|
                0 <= j < final(self).sections[section as int].sub_sections.len() && j
                    != sub_section ==> final(self).sections[section as int].sub_sections[j] == old(
                    self,
                ).sections[section as int].sub_sections[j],
            final(self).sections[section as int].sub_sections[sub_section as int].name == old(
                self,
            ).sections[section as int].sub_sections[sub_section as int].name,
            final(self).sections[section as int].sub_sections[sub_section as int].letter == old(
                self,
            ).sections[section as int].sub_sections[sub_section as int].letter,
            final(self).sections[section as int].sub_sections[sub_section as int].part == part,
    {
        self.sections[section].sub_sections[sub_section].part = part;
    }

    /// Perform a round of the game.
    ///
    /// `victim` holds the indices of the section and sub-section the victim
    /// is checking; `killer` holds the indices of the section and sub-section
    /// the killer is checking.
    ///
    /// Both moves must be within the fixed counts, and during a chase both
    /// must name the chase section; otherwise the round fails with
    /// `OutOfBounds` and the state is left untouched. An accepted round
    /// returns the round result and the car part found at the victim's
    /// sub-section (which may be absent, and is not removed), and the
    /// resolver itself applies both round-type transitions: a beginning chase
    /// sets `Chase`, and a `Caught`, `Evaded` or `TrapTriggered` outcome ends
    /// any chase.
    pub fn play(&mut self, victim: (usize, usize), killer: (usize, usize)) -> (r: PlayResult)
        requires
            old(self).wf(),
        ensures
            final(self).wf(),
            final(self).sections == old(self).sections,
            r is Ok <==> moves_accepted(old(self).round_type, victim, killer),
            r matches Err(e) ==> e == PlayError::OutOfBounds && *final(self) == *old(self),
            r matches Ok(p) ==> {
                &&& p.0 == old(self).spec_outcome(victim, killer)
                &&& p.1 == old(self).sections[victim.0 as int].sub_sections[victim.1 as int].part
                &&& final(self).round_type == spec_next_mode(
                    old(self).round_type,
                    old(self).spec_outcome(victim, killer),
                    victim,
                )
            },
    {
        // Indices must be within bounds
        if victim.0 >= SECTION_COUNT || victim.1 >= SUB_SECTION_COUNT || killer.0 >= SECTION_COUNT
            || killer.1 >= SUB_SECTION_COUNT {
            return Err(PlayError::OutOfBounds);
        }
        // Special check for chase rounds: the victim and killer must choose
        // the section that the chase is taking place in.
        match self.round_type {
            RoundType::Chase(section) => {
                if victim.0 != section || killer.0 != section {
                    return Err(PlayError::OutOfBounds);
                }
            },
            RoundType::Normal => {},
        }
        // Get the car part at the victim's sub-section.
        let car_part = self.sections[victim.0].sub_sections[victim.1].part;
        // Resolve the round, first match wins.
        let round_result: RoundResult = if self.sections[killer.0].trapped {
            // The killer chose a trapped section.
            RoundResult::TrapTriggered
        } else if victim.0 == killer.0 && victim.1 == killer.1 {
            // The killer and the victim chose the same exact place.
            RoundResult::Caught
        } else if matches!(self.round_type, RoundType::Chase(_)) {
            // A chase was occurring and the victim got away.
            RoundResult::Evaded
        } else if victim.0 == killer.0 {
            // The victim and killer chose the same section.
            RoundResult::ChaseBegins
        } else {
            RoundResult::Nothing
        };
        // The resolver owns both round-type transitions: the forward
        // transition into a chase and the reset once a chase (or any
        // decisive round) ends.
        match round_result {
            RoundResult::ChaseBegins => {
                self.round_type = RoundType::Chase(victim.0);
            },
            RoundResult::Nothing => {},
            _ => {
                self.round_type = RoundType::Normal;
            },
        }
        Ok((round_result, car_part))
    }
}

} // verus!
