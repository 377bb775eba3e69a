//! The mathematical model of the stage lists and of the deferred commands
//! that rearrange them.

use crate::stage::StageView;
use vstd::prelude::*;

verus! {

/// The names of a list of stages, in list order.
pub open spec fn stage_names(stages: Seq<StageView>) -> Seq<Seq<char>> {
    stages.map_values(|stage: StageView| stage.name)
}

/// Whether `index` is the first place in `names` that holds `name`.
pub open spec fn is_first(names: Seq<Seq<char>>, name: Seq<char>, index: int) -> bool {
    &&& 0 <= index < names.len()
    &&& names[index] == name
    &&& forall|earlier: int| 0 <= earlier < index ==> names[earlier] != name
}

/// The first place in `names` that holds `name`. It is meaningful only where
/// `names` contains `name`.
pub open spec fn first_index(names: Seq<Seq<char>>, name: Seq<char>) -> int {
    choose|index: int| is_first(names, name, index)
}

/// Whether no name occurs twice in `names`.
pub open spec fn distinct(names: Seq<Seq<char>>) -> bool {
    forall|i: int, j: int| 0 <= i < j < names.len() ==> names[i] != names[j]
}

/// The stages of an application: those that run, in running order, and those
/// that are parked.
pub struct Roster {
    pub busy: Seq<StageView>,
    pub spare: Seq<StageView>,
}

/// What a deferred command asks for.
pub enum CommandView {
    /// Insert the stage into the busy list right before the named stage.
    PushStageToWorkBefore { stage: StageView, after_stage_name: Seq<char> },
    /// Append the stage to the busy list.
    PushStageToWork { stage: StageView },
    /// Insert the stage into the busy list right behind the named stage.
    PushStageToWorkAfter { stage: StageView, before_stage_name: Seq<char> },
    /// Move the named stage from the busy list to the end of the spare list.
    MakeBusyStageToRest { stage_name: Seq<char> },
    /// Replace the frequency of the named busy stage.
    SetBusyStageFrequency { stage_name: Seq<char>, frequency: nat },
    /// Leave the run loop once this iteration has played.
    AppQuit,
}

/// What applying a batch of commands comes to.
pub struct BatchOutcome {
    /// The lists once every command that could be applied has been.
    pub roster: Roster,
    /// The commands left in the queue: none, or the first command that the
    /// lists did not admit and all behind it.
    pub rest: Seq<CommandView>,
    /// Whether one of the applied commands asked to quit.
    pub quit: bool,
}

impl Roster {
    /// The names of the busy stages, in running order.
    pub open spec fn busy_names(self) -> Seq<Seq<char>> {
        stage_names(self.busy)
    }

    /// The names of the spare stages.
    pub open spec fn spare_names(self) -> Seq<Seq<char>> {
        stage_names(self.spare)
    }

    /// Whether a stage of that name is busy or spare.
    pub open spec fn holds(self, name: Seq<char>) -> bool {
        self.busy_names().contains(name) || self.spare_names().contains(name)
    }

    /// Whether no name occurs twice over both lists.
    pub open spec fn names_distinct(self) -> bool {
        distinct(self.busy_names() + self.spare_names())
    }

    /// Whether the command can be applied to these lists: a stage to insert
    /// has a name that neither list holds, and a stage that is named is busy.
    pub open spec fn admits(self, command: CommandView) -> bool {
        match command {
            CommandView::PushStageToWorkBefore { stage, after_stage_name } => {
                !self.holds(stage.name) && self.busy_names().contains(after_stage_name)
            },
            CommandView::PushStageToWork { stage } => !self.holds(stage.name),
            CommandView::PushStageToWorkAfter { stage, before_stage_name } => {
                !self.holds(stage.name) && self.busy_names().contains(before_stage_name)
            },
            CommandView::MakeBusyStageToRest { stage_name } => self.busy_names().contains(
                stage_name,
            ),
            CommandView::SetBusyStageFrequency { stage_name, frequency } => {
                self.busy_names().contains(stage_name)
            },
            CommandView::AppQuit => true,
        }
    }

    /// The lists once the command has been applied.
    pub open spec fn after(self, command: CommandView) -> Roster {
        match command {
            CommandView::PushStageToWorkBefore { stage, after_stage_name } => Roster {
                busy: self.busy.insert(first_index(self.busy_names(), after_stage_name), stage),
                spare: self.spare,
            },
            CommandView::PushStageToWork { stage } => Roster {
                busy: self.busy.push(stage),
                spare: self.spare,
            },
            CommandView::PushStageToWorkAfter { stage, before_stage_name } => Roster {
                busy: self.busy.insert(
                    first_index(self.busy_names(), before_stage_name) + 1,
                    stage,
                ),
                spare: self.spare,
            },
            CommandView::MakeBusyStageToRest { stage_name } => {
                let index = first_index(self.busy_names(), stage_name);
                Roster {
                    busy: self.busy.remove(index),
                    spare: self.spare.push(self.busy[index]),
                }
            },
            CommandView::SetBusyStageFrequency { stage_name, frequency } => {
                let index = first_index(self.busy_names(), stage_name);
                Roster {
                    busy: self.busy.update(index, self.busy[index].with_frequency(frequency)),
                    spare: self.spare,
                }
            },
            CommandView::AppQuit => self,
        }
    }

    /// Applies the commands in order, each to the lists that the ones before
    /// it left, and stops in front of the first that those lists do not
    /// admit.
    pub open spec fn apply_batch(self, commands: Seq<CommandView>) -> BatchOutcome
        decreases commands.len(),
    {
        if commands.len() == 0 || !self.admits(commands[0]) {
            BatchOutcome { roster: self, rest: commands, quit: false }
        } else {
            let later = self.after(commands[0]).apply_batch(commands.drop_first());
            BatchOutcome {
                roster: later.roster,
                rest: later.rest,
                quit: later.quit || commands[0] is AppQuit,
            }
        }
    }
}

/// A name that `names` contains has a first place there, and `first_index`
/// gives it.
pub proof fn lemma_first_index(names: Seq<Seq<char>>, name: Seq<char>)
    requires
        names.contains(name),
    ensures
        is_first(names, name, first_index(names, name)),
{
    let somewhere = choose|i: int| 0 <= i < names.len() && names[i] == name;
    lemma_first_before(names, name, somewhere);
}

/// Below any place that holds `name` there is a first such place.
proof fn lemma_first_before(names: Seq<Seq<char>>, name: Seq<char>, bound: int)
    requires
        0 <= bound < names.len(),
        names[bound] == name,
    ensures
        exists|index: int| is_first(names, name, index),
    decreases bound,
{
    if exists|earlier: int| 0 <= earlier < bound && names[earlier] == name {
        let earlier = choose|earlier: int| 0 <= earlier < bound && names[earlier] == name;
        lemma_first_before(names, name, earlier);
    } else {
        assert(is_first(names, name, bound));
    }
}

/// A name has at most one first place.
pub proof fn lemma_first_index_is(names: Seq<Seq<char>>, name: Seq<char>, index: int)
    requires
        is_first(names, name, index),
    ensures
        first_index(names, name) == index,
        names.contains(name),
{
    let chosen = first_index(names, name);
    assert(is_first(names, name, chosen));
    if chosen < index {
        assert(names[chosen] != name);
    }
    if index < chosen {
        assert(names[index] != name);
    }
}

/// Applying a batch with one more command at its end applies the batch and
/// then, if the whole batch went through, that command to the lists that the
/// batch left.
pub proof fn lemma_batch_with_last(roster: Roster, commands: Seq<CommandView>, last: CommandView)
    ensures
        ({
            let first = roster.apply_batch(commands);
            let whole = roster.apply_batch(commands.push(last));
            if first.rest.len() > 0 {
                &&& whole.roster == first.roster
                &&& whole.rest == first.rest.push(last)
                &&& whole.quit == first.quit
            } else if first.roster.admits(last) {
                &&& whole.roster == first.roster.after(last)
                &&& whole.rest.len() == 0
                &&& whole.quit == (first.quit || last is AppQuit)
            } else {
                &&& whole.roster == first.roster
                &&& whole.rest == seq![last]
                &&& whole.quit == first.quit
            }
        }),
    decreases commands.len(),
{
    let longer = commands.push(last);
    if commands.len() == 0 {
        assert(longer.drop_first() =~= Seq::<CommandView>::empty());
        assert(longer =~= seq![last]);
        assert(longer[0] == last);
        if roster.admits(last) {
            assert(roster.after(last).apply_batch(longer.drop_first()).rest.len() == 0);
        }
    } else {
        assert(longer[0] == commands[0]);
        if roster.admits(commands[0]) {
            assert(longer.drop_first() =~= commands.drop_first().push(last));
            lemma_batch_with_last(roster.after(commands[0]), commands.drop_first(), last);
        } else {
            assert(roster.apply_batch(commands).rest == commands);
        }
    }
}

/// Insertion before an anchor. Whatever the lists and whatever is queued
/// ahead: when a batch that ends with the command to insert a stage before
/// an anchor goes through, the stage stands in the busy list with the anchor
/// right behind it.
pub proof fn lemma_insert_before_precedes(
    roster: Roster,
    ahead: Seq<CommandView>,
    stage: StageView,
    anchor: Seq<char>,
)
    requires
        roster.apply_batch(
            ahead.push(CommandView::PushStageToWorkBefore { stage, after_stage_name: anchor }),
        ).rest.len() == 0,
    ensures
        ({
            let busy = roster.apply_batch(
                ahead.push(CommandView::PushStageToWorkBefore { stage, after_stage_name: anchor }),
            ).roster.busy;
            exists|place: int|
                {
                    &&& 0 <= place
                    &&& place + 1 < busy.len()
                    &&& #[trigger] busy[place] == stage
                    &&& busy[place + 1].name == anchor
                }
        }),
{
    let command = CommandView::PushStageToWorkBefore { stage, after_stage_name: anchor };
    lemma_batch_with_last(roster, ahead, command);
    let middle = roster.apply_batch(ahead).roster;
    assert(roster.apply_batch(ahead).rest.len() == 0);
    assert(middle.admits(command));
    lemma_first_index(middle.busy_names(), anchor);
    let place = first_index(middle.busy_names(), anchor);
    let busy = middle.after(command).busy;
    assert(busy == middle.busy.insert(place, stage));
    assert(busy[place] == stage);
    assert(busy[place + 1] == middle.busy[place]);
    assert(middle.busy_names()[place] == middle.busy[place].name);
}

/// Insertion behind an anchor. When a batch that ends with the command to
/// insert a stage behind an anchor goes through, the stage stands in the
/// busy list right behind the first stage of the anchor's name.
pub proof fn lemma_insert_after_follows(
    roster: Roster,
    ahead: Seq<CommandView>,
    stage: StageView,
    anchor: Seq<char>,
)
    requires
        roster.apply_batch(
            ahead.push(CommandView::PushStageToWorkAfter { stage, before_stage_name: anchor }),
        ).rest.len() == 0,
    ensures
        ({
            let busy = roster.apply_batch(
                ahead.push(CommandView::PushStageToWorkAfter { stage, before_stage_name: anchor }),
            ).roster.busy;
            exists|place: int|
                {
                    &&& 0 <= place
                    &&& place + 1 < busy.len()
                    &&& #[trigger] busy[place].name == anchor
                    &&& busy[place + 1] == stage
                }
        }),
{
    let command = CommandView::PushStageToWorkAfter { stage, before_stage_name: anchor };
    lemma_batch_with_last(roster, ahead, command);
    let middle = roster.apply_batch(ahead).roster;
    assert(roster.apply_batch(ahead).rest.len() == 0);
    assert(middle.admits(command));
    lemma_first_index(middle.busy_names(), anchor);
    let place = first_index(middle.busy_names(), anchor);
    let busy = middle.after(command).busy;
    assert(busy == middle.busy.insert(place + 1, stage));
    assert(busy[place + 1] == stage);
    assert(busy[place] == middle.busy[place]);
    assert(middle.busy_names()[place] == middle.busy[place].name);
}

/// A batch of one command that the lists admit applies that command.
pub proof fn lemma_batch_of_one(roster: Roster, command: CommandView)
    requires
        roster.admits(command),
    ensures
        roster.apply_batch(seq![command]).roster == roster.after(command),
        roster.apply_batch(seq![command]).rest.len() == 0,
        roster.apply_batch(seq![command]).quit == (command is AppQuit),
{
    lemma_batch_with_last(roster, Seq::<CommandView>::empty(), command);
    assert(Seq::<CommandView>::empty().push(command) =~= seq![command]);
}

/// The round trip of a stage. In lists where no name occurs twice, take a
/// busy stage: apply the command that parks it, take the stage of its name
/// out of the spare list, and apply the command that appends that stage to
/// the busy list. Both commands go through, and the stage that comes back
/// is the very stage that was parked: its name, its frequency and timer,
/// and its three units. The spare list ends as it began, and the other busy
/// stages keep their order.
pub proof fn lemma_park_then_activate(roster: Roster, name: Seq<char>)
    requires
        roster.names_distinct(),
        roster.busy_names().contains(name),
    ensures
        ({
            let place = first_index(roster.busy_names(), name);
            let park = CommandView::MakeBusyStageToRest { stage_name: name };
            let parked = roster.apply_batch(seq![park]);
            let found = first_index(parked.roster.spare_names(), name);
            let taken = Roster {
                busy: parked.roster.busy,
                spare: parked.roster.spare.remove(found),
            };
            let activate = CommandView::PushStageToWork { stage: parked.roster.spare[found] };
            let back = taken.apply_batch(seq![activate]);
            &&& parked.rest.len() == 0
            &&& parked.roster.spare_names().contains(name)
            &&& parked.roster.spare[found] == roster.busy[place]
            &&& back.rest.len() == 0
            &&& back.roster.busy == roster.busy.remove(place).push(roster.busy[place])
            &&& back.roster.spare == roster.spare
        }),
{
    let names = roster.busy_names() + roster.spare_names();
    lemma_first_index(roster.busy_names(), name);
    let place = first_index(roster.busy_names(), name);
    let park = CommandView::MakeBusyStageToRest { stage_name: name };
    lemma_batch_of_one(roster, park);
    let parked = roster.after(park);
    let last = roster.spare.len() as int;
    assert(parked.spare == roster.spare.push(roster.busy[place]));
    assert(parked.spare_names()[last] == name);
    assert forall|earlier: int| 0 <= earlier < last implies parked.spare_names()[earlier]
        != name by {
        assert(names[place] == name);
        assert(names[roster.busy.len() + earlier] == roster.spare[earlier].name);
    }
    lemma_first_index_is(parked.spare_names(), name, last);
    assert(parked.spare.remove(last) =~= roster.spare);
    let taken = Roster { busy: parked.busy, spare: parked.spare.remove(last) };
    assert forall|i: int| 0 <= i < taken.busy.len() implies taken.busy_names()[i] != name by {
        if i < place {
            assert(taken.busy[i] == roster.busy[i]);
            assert(names[i] == roster.busy[i].name);
            assert(names[place] == name);
        } else {
            assert(taken.busy[i] == roster.busy[i + 1]);
            assert(names[i + 1] == roster.busy[i + 1].name);
            assert(names[place] == name);
        }
    }
    assert forall|i: int| 0 <= i < taken.spare.len() implies taken.spare_names()[i] != name by {
        assert(names[place] == name);
        assert(names[roster.busy.len() + i] == roster.spare[i].name);
    }
    lemma_batch_of_one(taken, CommandView::PushStageToWork { stage: parked.spare[last] });
}

/// A name that a list of distinct names lacks can be inserted anywhere.
proof fn lemma_distinct_insert(names: Seq<Seq<char>>, place: int, name: Seq<char>)
    requires
        distinct(names),
        !names.contains(name),
        0 <= place <= names.len(),
    ensures
        distinct(names.insert(place, name)),
{
    let longer = names.insert(place, name);
    assert forall|i: int, j: int| 0 <= i < j < longer.len() implies longer[i] != longer[j] by {
        let from_i = if i < place { i } else { i - 1 };
        let from_j = if j < place { j } else { j - 1 };
        if i == place {
            assert(longer[j] == names[from_j]);
            assert(names.contains(names[from_j]));
        } else if j == place {
            assert(longer[i] == names[from_i]);
            assert(names.contains(names[from_i]));
        } else {
            assert(longer[i] == names[from_i]);
            assert(longer[j] == names[from_j]);
        }
    }
}

/// A list of distinct names stays one when a name leaves it.
proof fn lemma_distinct_remove(names: Seq<Seq<char>>, place: int)
    requires
        distinct(names),
        0 <= place < names.len(),
    ensures
        distinct(names.remove(place)),
        !names.remove(place).contains(names[place]),
{
    let shorter = names.remove(place);
    assert forall|i: int, j: int| 0 <= i < j < shorter.len() implies shorter[i] != shorter[j] by {
        let from_i = if i < place { i } else { i + 1 };
        let from_j = if j < place { j } else { j + 1 };
        assert(shorter[i] == names[from_i]);
        assert(shorter[j] == names[from_j]);
    }
    assert forall|i: int| 0 <= i < shorter.len() implies shorter[i] != names[place] by {
        let from_i = if i < place { i } else { i + 1 };
        assert(shorter[i] == names[from_i]);
    }
}

/// Names stay distinct. In lists where no name occurs twice, a command that
/// the lists admit leaves lists where no name occurs twice.
pub proof fn lemma_command_keeps_names_distinct(roster: Roster, command: CommandView)
    requires
        roster.names_distinct(),
        roster.admits(command),
    ensures
        roster.after(command).names_distinct(),
{
    let names = roster.busy_names() + roster.spare_names();
    let next = roster.after(command);
    let next_names = next.busy_names() + next.spare_names();
    match command {
        CommandView::PushStageToWorkBefore { stage, after_stage_name } => {
            lemma_first_index(roster.busy_names(), after_stage_name);
            let place = first_index(roster.busy_names(), after_stage_name);
            lemma_lacks(roster, stage.name);
            lemma_distinct_insert(names, place, stage.name);
            assert(next_names =~= names.insert(place, stage.name));
        },
        CommandView::PushStageToWork { stage } => {
            let place = roster.busy.len() as int;
            lemma_lacks(roster, stage.name);
            lemma_distinct_insert(names, place, stage.name);
            assert(next_names =~= names.insert(place, stage.name));
        },
        CommandView::PushStageToWorkAfter { stage, before_stage_name } => {
            lemma_first_index(roster.busy_names(), before_stage_name);
            let place = first_index(roster.busy_names(), before_stage_name) + 1;
            lemma_lacks(roster, stage.name);
            lemma_distinct_insert(names, place, stage.name);
            assert(next_names =~= names.insert(place, stage.name));
        },
        CommandView::MakeBusyStageToRest { stage_name } => {
            lemma_first_index(roster.busy_names(), stage_name);
            let place = first_index(roster.busy_names(), stage_name);
            assert(names[place] == stage_name);
            lemma_distinct_remove(names, place);
            let shorter = names.remove(place);
            lemma_distinct_insert(shorter, shorter.len() as int, stage_name);
            assert(next_names =~= shorter.insert(shorter.len() as int, stage_name));
        },
        CommandView::SetBusyStageFrequency { stage_name, frequency } => {
            lemma_first_index(roster.busy_names(), stage_name);
            assert(next_names =~= names);
        },
        CommandView::AppQuit => {},
    }
}

/// A name that neither list holds is none of the names of both.
proof fn lemma_lacks(roster: Roster, name: Seq<char>)
    requires
        !roster.holds(name),
    ensures
        !(roster.busy_names() + roster.spare_names()).contains(name),
{
    let busy = roster.busy_names();
    let spare = roster.spare_names();
    assert forall|i: int| 0 <= i < (busy + spare).len() implies (busy + spare)[i] != name by {
        if i < busy.len() {
            assert(busy.contains(busy[i]));
        } else {
            assert(spare.contains(spare[i - busy.len()]));
        }
    }
}

/// Names stay distinct over a batch. In lists where no name occurs twice,
/// applying a batch of commands, as far as it goes, leaves lists where no
/// name occurs twice.
pub proof fn lemma_batch_keeps_names_distinct(roster: Roster, commands: Seq<CommandView>)
    requires
        roster.names_distinct(),
    ensures
        roster.apply_batch(commands).roster.names_distinct(),
    decreases commands.len(),
{
    if commands.len() > 0 && roster.admits(commands[0]) {
        lemma_command_keeps_names_distinct(roster, commands[0]);
        lemma_batch_keeps_names_distinct(roster.after(commands[0]), commands.drop_first());
    }
}

} // verus!
