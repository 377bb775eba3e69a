//! The settings of a running application: a record of the busy stages, the
//! spare stages, and the queue of commands that the run loop applies between
//! two iterations.

use crate::roster::{
    first_index, is_first, lemma_first_index_is, stage_names, CommandView, Roster,
};
use crate::stage::{
    info_names, info_views, snapshot, stage_views, AppStage, StageInfo, StageInfoView, StageView,
};
use crate::text::same_text;
use std::collections::VecDeque;
use vstd::prelude::*;

verus! {

/// A deferred request to rearrange the stages, with the stage it carries.
#[derive(Debug)]
pub enum AppCommand {
    /// Insert the stage into the busy list right before the named stage.
    PushStageToWorkBefore { stage: AppStage, after_stage_name: String },
    /// Append the stage to the busy list.
    PushStageToWork { stage: AppStage },
    /// Insert the stage into the busy list right behind the named stage.
    PushStageToWorkAfter { stage: AppStage, before_stage_name: String },
    /// Move the named stage from the busy list to the end of the spare list.
    MakeBusyStageToRest { stage_name: String },
    /// Replace the frequency of the named busy stage.
    SetBusyStageFrequency { stage_name: String, frequency: u32 },
    /// Leave the run loop once this iteration has played.
    AppQuit,
}

impl View for AppCommand {
    type V = CommandView;

    open spec fn view(&self) -> CommandView {
        match *self {
            AppCommand::PushStageToWorkBefore { stage, after_stage_name } => {
                CommandView::PushStageToWorkBefore {
                    stage: stage@,
                    after_stage_name: after_stage_name@,
                }
            },
            AppCommand::PushStageToWork { stage } => CommandView::PushStageToWork {
                stage: stage@,
            },
            AppCommand::PushStageToWorkAfter { stage, before_stage_name } => {
                CommandView::PushStageToWorkAfter {
                    stage: stage@,
                    before_stage_name: before_stage_name@,
                }
            },
            AppCommand::MakeBusyStageToRest { stage_name } => CommandView::MakeBusyStageToRest {
                stage_name: stage_name@,
            },
            AppCommand::SetBusyStageFrequency { stage_name, frequency } => {
                CommandView::SetBusyStageFrequency {
                    stage_name: stage_name@,
                    frequency: frequency as nat,
                }
            },
            AppCommand::AppQuit => CommandView::AppQuit,
        }
    }
}

/// The views of a queue of commands, in queue order.
pub open spec fn command_views(commands: Seq<AppCommand>) -> Seq<CommandView> {
    commands.map_values(|command: AppCommand| command@)
}

/// Why a request to the settings was turned down. A stage that could not be
/// placed comes back inside the error.
#[derive(Debug)]
pub enum AppSettingsError<'a> {
    /// A busy stage already has the name of this stage.
    DuplicateNameInBusy(AppStage),
    /// A spare stage already has the name of this stage.
    DuplicateNameInSpare(AppStage),
    /// No stage, busy or spare, has this name.
    StageNotExist(&'a str),
    /// No busy stage has this name.
    StageNotExistInBusy(&'a str, Option<AppStage>),
    /// No spare stage has this name.
    StageNotExistInSpare(&'a str, Option<AppStage>),
}

/// The place of the first stage of that name in the list, if there is one.
pub fn find_stage(stages: &Vec<AppStage>, stage_name: &str) -> (found: Option<usize>)
    ensures
        match found {
            Some(index) => is_first(
                stage_names(stage_views(stages@)),
                stage_name@,
                index as int,
            ),
            None => !stage_names(stage_views(stages@)).contains(stage_name@),
        },
{
    let ghost names = stage_names(stage_views(stages@));
    let mut index: usize = 0;
    while index < stages.len()
        invariant
            index <= stages.len(),
            names == stage_names(stage_views(stages@)),
            forall|earlier: int| 0 <= earlier < index ==> names[earlier] != stage_name@,
        decreases stages.len() - index,
    {
        if same_text(stages[index].name(), stage_name) {
            return Some(index);
        }
        index += 1;
    }
    None
}

/// The place of the first record of that name in the list, if there is one.
pub fn find_info(infos: &Vec<StageInfo>, stage_name: &str) -> (found: Option<usize>)
    ensures
        match found {
            Some(index) => is_first(info_names(info_views(infos@)), stage_name@, index as int),
            None => !info_names(info_views(infos@)).contains(stage_name@),
        },
{
    let ghost names = info_names(info_views(infos@));
    let mut index: usize = 0;
    while index < infos.len()
        invariant
            index <= infos.len(),
            names == info_names(info_views(infos@)),
            forall|earlier: int| 0 <= earlier < index ==> names[earlier] != stage_name@,
        decreases infos.len() - index,
    {
        if same_text(infos[index].name(), stage_name) {
            return Some(index);
        }
        index += 1;
    }
    None
}

/// A defect that ends the run loop.
#[derive(Clone, Copy, Debug, PartialEq, Eq, Structural)]
pub enum AppFault {
    /// The settings were taken out of the resources while the loop ran.
    SettingsMissing,
    /// A queued command no longer fits the lists it was checked against:
    /// a command applied before it took its anchor away or brought in the
    /// name of its stage.
    StaleCommand,
    /// The application is not in the phase that the step belongs to.
    OutOfPhase,
}

/// The two stage lists as a roster.
pub open spec fn roster_of(busy: Seq<AppStage>, spare: Seq<AppStage>) -> Roster {
    Roster { busy: stage_views(busy), spare: stage_views(spare) }
}

/// Whether the command can be applied to the two lists.
fn admits(busy: &Vec<AppStage>, spare: &Vec<AppStage>, command: &AppCommand) -> (admitted: bool)
    ensures
        admitted == roster_of(busy@, spare@).admits(command@),
{
    match command {
        AppCommand::PushStageToWorkBefore { stage, after_stage_name } => {
            find_stage(busy, stage.name()).is_none() && find_stage(spare, stage.name()).is_none()
                && find_stage(busy, after_stage_name.as_str()).is_some()
        },
        AppCommand::PushStageToWork { stage } => {
            find_stage(busy, stage.name()).is_none() && find_stage(spare, stage.name()).is_none()
        },
        AppCommand::PushStageToWorkAfter { stage, before_stage_name } => {
            find_stage(busy, stage.name()).is_none() && find_stage(spare, stage.name()).is_none()
                && find_stage(busy, before_stage_name.as_str()).is_some()
        },
        AppCommand::MakeBusyStageToRest { stage_name } => {
            find_stage(busy, stage_name.as_str()).is_some()
        },
        AppCommand::SetBusyStageFrequency { stage_name, frequency } => {
            find_stage(busy, stage_name.as_str()).is_some()
        },
        AppCommand::AppQuit => true,
    }
}

/// Applies a command that the two lists admit.
fn perform(busy: &mut Vec<AppStage>, spare: &mut Vec<AppStage>, command: AppCommand)
    requires
        roster_of(old(busy)@, old(spare)@).admits(command@),
    ensures
        roster_of(final(busy)@, final(spare)@) == roster_of(old(busy)@, old(spare)@).after(
            command@,
        ),
{
    let ghost before = roster_of(busy@, spare@);
    match command {
        AppCommand::PushStageToWorkBefore { stage, after_stage_name } => {
            let index = find_stage(busy, after_stage_name.as_str()).unwrap();
            proof {
                lemma_first_index_is(before.busy_names(), after_stage_name@, index as int);
            }
            busy.insert(index, stage);
            assert(stage_views(busy@) =~= before.busy.insert(index as int, stage@));
        },
        AppCommand::PushStageToWork { stage } => {
            busy.push(stage);
            assert(stage_views(busy@) =~= before.busy.push(stage@));
        },
        AppCommand::PushStageToWorkAfter { stage, before_stage_name } => {
            let index = find_stage(busy, before_stage_name.as_str()).unwrap();
            proof {
                lemma_first_index_is(before.busy_names(), before_stage_name@, index as int);
            }
            assert(index < busy.len()) by {
                assert(before.busy_names().len() == busy.len());
            }
            busy.insert(index + 1, stage);
            assert(stage_views(busy@) =~= before.busy.insert(index as int + 1, stage@));
        },
        AppCommand::MakeBusyStageToRest { stage_name } => {
            let index = find_stage(busy, stage_name.as_str()).unwrap();
            proof {
                lemma_first_index_is(before.busy_names(), stage_name@, index as int);
            }
            let stage = busy.remove(index);
            spare.push(stage);
            assert(stage_views(busy@) =~= before.busy.remove(index as int));
            assert(stage_views(spare@) =~= before.spare.push(before.busy[index as int]));
        },
        AppCommand::SetBusyStageFrequency { stage_name, frequency } => {
            let index = find_stage(busy, stage_name.as_str()).unwrap();
            proof {
                lemma_first_index_is(before.busy_names(), stage_name@, index as int);
            }
            let stage = &mut busy[index];
            stage.set_frequency(frequency);
            assert(stage_views(busy@) =~= before.busy.update(
                index as int,
                before.busy[index as int].with_frequency(frequency as nat),
            ));
        },
        AppCommand::AppQuit => {},
    }
}

/// How a request to place a stage in the busy list is answered.
pub enum Placement {
    /// The request is queued.
    Accepted,
    /// Refused: a busy stage has the name of the stage.
    DuplicateNameInBusy,
    /// Refused: a spare stage has the name of the stage.
    DuplicateNameInSpare,
    /// Refused: no busy stage has the name given as the anchor.
    StageNotExistInBusy,
}

/// The answer to a request to place a stage called `name`, beside the busy
/// stage called `anchor` if one is given. A name already in use is found
/// first, in the busy list before the spare list; then a missing anchor.
pub open spec fn placement(
    busy_names: Seq<Seq<char>>,
    spare_names: Seq<Seq<char>>,
    name: Seq<char>,
    anchor: Option<Seq<char>>,
) -> Placement {
    if busy_names.contains(name) {
        Placement::DuplicateNameInBusy
    } else if spare_names.contains(name) {
        Placement::DuplicateNameInSpare
    } else if anchor is Some && !busy_names.contains(anchor->0) {
        Placement::StageNotExistInBusy
    } else {
        Placement::Accepted
    }
}

/// Whether `result` gives the answer `verdict`, and with a refusal hands back
/// the stage and the anchor's name as they came.
pub open spec fn answers<'a>(
    result: Result<(), AppSettingsError<'a>>,
    verdict: Placement,
    stage: StageView,
    anchor: Option<&'a str>,
) -> bool {
    match verdict {
        Placement::Accepted => result is Ok,
        Placement::DuplicateNameInBusy => {
            &&& result matches Err(AppSettingsError::DuplicateNameInBusy(returned))
            &&& returned@ == stage
        },
        Placement::DuplicateNameInSpare => {
            &&& result matches Err(AppSettingsError::DuplicateNameInSpare(returned))
            &&& returned@ == stage
        },
        Placement::StageNotExistInBusy => {
            &&& result matches Err(
                AppSettingsError::StageNotExistInBusy(missing, Some(returned)),
            )
            &&& Some(missing) == anchor
            &&& returned@ == stage
        },
    }
}

/// A taken name is always refused. Whatever the anchor, a request to place a
/// stage whose name a busy or a spare stage already has is answered with an
/// error that tells of the duplicate name and hands back the stage as it
/// came.
pub proof fn lemma_taken_name_is_refused<'a>(
    busy_names: Seq<Seq<char>>,
    spare_names: Seq<Seq<char>>,
    stage: StageView,
    anchor: Option<&'a str>,
    result: Result<(), AppSettingsError<'a>>,
)
    requires
        busy_names.contains(stage.name) || spare_names.contains(stage.name),
        answers(
            result,
            placement(
                busy_names,
                spare_names,
                stage.name,
                match anchor {
                    Some(name) => Some(name@),
                    None => None,
                },
            ),
            stage,
            anchor,
        ),
    ensures
        match result {
            Err(AppSettingsError::DuplicateNameInBusy(returned)) => {
                busy_names.contains(stage.name) && returned@ == stage
            },
            Err(AppSettingsError::DuplicateNameInSpare(returned)) => {
                spare_names.contains(stage.name) && returned@ == stage
            },
            _ => false,
        },
{
}

/// The settings of a running application. Requests that would change the
/// busy list are checked at once, against the lists as they are, and queued:
/// the run loop applies the queue between two iterations. The spare list
/// belongs to the settings alone and changes at once.
pub struct AppSettings {
    busy_stages: Vec<StageInfo>,
    spare_stages: Vec<AppStage>,
    commands: VecDeque<AppCommand>,
}

impl AppSettings {
    /// The records of the busy stages, in running order.
    pub closed spec fn busy(&self) -> Seq<StageInfoView> {
        info_views(self.busy_stages@)
    }

    /// The spare stages.
    pub closed spec fn spare(&self) -> Seq<StageView> {
        stage_views(self.spare_stages@)
    }

    /// The commands that wait to be applied, oldest first.
    pub closed spec fn pending(&self) -> Seq<CommandView> {
        command_views(self.commands@)
    }

    /// The names of the busy stages, in running order.
    pub open spec fn busy_names(&self) -> Seq<Seq<char>> {
        info_names(self.busy())
    }

    /// The names of the spare stages.
    pub open spec fn spare_names(&self) -> Seq<Seq<char>> {
        stage_names(self.spare())
    }

    /// The answer that these settings give to a request to place `stage`.
    pub open spec fn verdict(&self, stage: StageView, anchor: Option<Seq<char>>) -> Placement {
        placement(self.busy_names(), self.spare_names(), stage.name, anchor)
    }

    /// Settings for an application whose busy stages are `busy_stages`: no
    /// stage is spare and no command waits.
    pub fn new(busy_stages: &Vec<AppStage>) -> (settings: Self)
        ensures
            settings.busy() == snapshot(stage_views(busy_stages@)),
            settings.spare() == Seq::<StageView>::empty(),
            settings.pending() == Seq::<CommandView>::empty(),
    {
        let mut settings = AppSettings {
            busy_stages: Vec::new(),
            spare_stages: Vec::new(),
            commands: VecDeque::new(),
        };
        settings.record(busy_stages);
        assert(settings.spare() =~= Seq::<StageView>::empty());
        assert(settings.pending() =~= Seq::<CommandView>::empty());
        settings
    }

    /// Brings the records of the busy stages in line with `busy_stages`. The
    /// records are written anew only where they differ.
    pub fn record(&mut self, busy_stages: &Vec<AppStage>)
        ensures
            final(self).busy() == snapshot(stage_views(busy_stages@)),
            final(self).spare() == old(self).spare(),
            final(self).pending() == old(self).pending(),
    {
        let ghost wanted = snapshot(stage_views(busy_stages@));
        let mut same = self.busy_stages.len() == busy_stages.len();
        let mut index: usize = 0;
        while same && index < busy_stages.len()
            invariant
                index <= busy_stages.len(),
                same ==> self.busy_stages.len() == busy_stages.len(),
                same ==> forall|i: int| 0 <= i < index ==> self.busy()[i] == wanted[i],
                wanted == snapshot(stage_views(busy_stages@)),
                self.spare() == old(self).spare(),
                self.pending() == old(self).pending(),
            decreases busy_stages.len() - index + if same { 1int } else { 0int },
        {
            let info = &self.busy_stages[index];
            let stage = &busy_stages[index];
            if same_text(info.name(), stage.name()) && info.frequency() == stage.frequency() {
                index += 1;
            } else {
                same = false;
            }
        }
        if same {
            assert(self.busy() =~= wanted);
        } else {
            let mut records: Vec<StageInfo> = Vec::new();
            let mut index: usize = 0;
            while index < busy_stages.len()
                invariant
                    index <= busy_stages.len(),
                    records.len() == index,
                    forall|i: int| 0 <= i < index ==> (#[trigger] records[i])@ == wanted[i],
                    wanted == snapshot(stage_views(busy_stages@)),
                decreases busy_stages.len() - index,
            {
                records.push(busy_stages[index].info());
                index += 1;
            }
            self.busy_stages = records;
            assert(self.busy() =~= wanted);
        }
    }

    /// The record of the busy stage of that name, if there is one.
    pub fn busy_stage<'a>(&'a self, stage_name: &str) -> (found: Option<&'a StageInfo>)
        ensures
            match found {
                Some(info) => {
                    &&& self.busy_names().contains(stage_name@)
                    &&& info@ == self.busy()[first_index(self.busy_names(), stage_name@)]
                },
                None => !self.busy_names().contains(stage_name@),
            },
    {
        match find_info(&self.busy_stages, stage_name) {
            Some(index) => {
                proof {
                    lemma_first_index_is(self.busy_names(), stage_name@, index as int);
                }
                Some(&self.busy_stages[index])
            },
            None => None,
        }
    }

    /// The records of the busy stages, in running order.
    pub fn busy_stage_iter<'a>(&'a self) -> (records: &'a [StageInfo])
        ensures
            info_views(records@) == self.busy(),
    {
        self.busy_stages.as_slice()
    }

    /// The spare stage of that name, if there is one.
    pub fn spare_stage<'a>(&'a self, stage_name: &str) -> (found: Option<&'a AppStage>)
        ensures
            match found {
                Some(stage) => {
                    &&& self.spare_names().contains(stage_name@)
                    &&& stage@ == self.spare()[first_index(self.spare_names(), stage_name@)]
                },
                None => !self.spare_names().contains(stage_name@),
            },
    {
        match find_stage(&self.spare_stages, stage_name) {
            Some(index) => {
                proof {
                    lemma_first_index_is(self.spare_names(), stage_name@, index as int);
                }
                Some(&self.spare_stages[index])
            },
            None => None,
        }
    }

    /// The spare stages.
    pub fn spare_stage_iter<'a>(&'a self) -> (stages: &'a [AppStage])
        ensures
            stage_views(stages@) == self.spare(),
    {
        self.spare_stages.as_slice()
    }

    /// Takes the spare stage of that name out of the spare list, if there is
    /// one. The other spare stages keep their order.
    pub fn take_spare_stage(&mut self, stage_name: &str) -> (taken: Option<AppStage>)
        ensures
            final(self).busy() == old(self).busy(),
            final(self).pending() == old(self).pending(),
            match taken {
                Some(stage) => {
                    let index = first_index(old(self).spare_names(), stage_name@);
                    &&& old(self).spare_names().contains(stage_name@)
                    &&& stage@ == old(self).spare()[index]
                    &&& final(self).spare() == old(self).spare().remove(index)
                },
                None => {
                    &&& !old(self).spare_names().contains(stage_name@)
                    &&& final(self).spare() == old(self).spare()
                },
            },
    {
        match find_stage(&self.spare_stages, stage_name) {
            Some(index) => {
                proof {
                    lemma_first_index_is(self.spare_names(), stage_name@, index as int);
                }
                let stage = self.spare_stages.remove(index);
                assert(self.spare() =~= old(self).spare().remove(index as int));
                Some(stage)
            },
            None => None,
        }
    }

    /// Whether a busy stage has that name.
    pub fn is_in_busy(&self, stage_name: &str) -> (present: bool)
        ensures
            present == self.busy_names().contains(stage_name@),
    {
        find_info(&self.busy_stages, stage_name).is_some()
    }

    /// Whether a spare stage has that name.
    pub fn is_in_spare(&self, stage_name: &str) -> (present: bool)
        ensures
            present == self.spare_names().contains(stage_name@),
    {
        find_stage(&self.spare_stages, stage_name).is_some()
    }

    /// The place of the busy stage of that name in the running order.
    pub fn busy_stage_index<'a>(&self, stage_name: &'a str) -> (result: Result<
        usize,
        AppSettingsError<'a>,
    >)
        ensures
            match result {
                Ok(index) => is_first(self.busy_names(), stage_name@, index as int),
                Err(error) => {
                    &&& !self.busy_names().contains(stage_name@)
                    &&& error matches AppSettingsError::StageNotExistInBusy(missing, None)
                    &&& missing == stage_name
                },
            },
    {
        match find_info(&self.busy_stages, stage_name) {
            Some(index) => Ok(index),
            None => Err(AppSettingsError::StageNotExistInBusy(stage_name, None)),
        }
    }
    /// The spare stage of that name, for changing it in place, if there is
    /// one. The other spare stages stay as they are.
    pub fn spare_stage_mut(&mut self, stage_name: &str) -> (found: Option<&mut AppStage>)
        ensures
            final(self).busy() == old(self).busy(),
            final(self).pending() == old(self).pending(),
            match found {
                Some(stage) => {
                    let index = first_index(old(self).spare_names(), stage_name@);
                    &&& old(self).spare_names().contains(stage_name@)
                    &&& stage@ == old(self).spare()[index]
                    &&& final(self).spare() == old(self).spare().update(index, final(stage)@)
                },
                None => {
                    &&& !old(self).spare_names().contains(stage_name@)
                    &&& final(self).spare() == old(self).spare()
                },
            },
    {
        match find_stage(&self.spare_stages, stage_name) {
            Some(index) => {
                proof {
                    lemma_first_index_is(self.spare_names(), stage_name@, index as int);
                }
                let stage = &mut self.spare_stages[index];
                Some(stage)
            },
            None => None,
        }
    }
    /// The spare stages, for changing them in place.
    pub fn spare_stage_iter_mut(&mut self) -> (stages: &mut [AppStage])
        ensures
            stage_views(stages@) == old(self).spare(),
            final(self).spare() == stage_views(final(stages)@),
            final(self).busy() == old(self).busy(),
            final(self).pending() == old(self).pending(),
    {
        self.spare_stages.as_mut_slice()
    }

    /// Asks for `stage` to be inserted into the busy list right before the
    /// busy stage called `after_stage_name`. The request is queued if no
    /// stage, busy or spare, has the name of `stage` and the anchor is busy;
    /// otherwise nothing changes and the stage comes back in the error.
    pub fn push_stage_to_work_before<'a>(
        &mut self,
        stage: AppStage,
        after_stage_name: &'a str,
    ) -> (result: Result<(), AppSettingsError<'a>>)
        ensures
            answers(
                result,
                old(self).verdict(stage@, Some(after_stage_name@)),
                stage@,
                Some(after_stage_name),
            ),
            final(self).busy() == old(self).busy(),
            final(self).spare() == old(self).spare(),
            final(self).pending() == if result is Ok {
                old(self).pending().push(
                    CommandView::PushStageToWorkBefore {
                        stage: stage@,
                        after_stage_name: after_stage_name@,
                    },
                )
            } else {
                old(self).pending()
            },
    {
        if self.is_in_busy(stage.name()) {
            Err(AppSettingsError::DuplicateNameInBusy(stage))
        } else if self.is_in_spare(stage.name()) {
            Err(AppSettingsError::DuplicateNameInSpare(stage))
        } else if !self.is_in_busy(after_stage_name) {
            Err(AppSettingsError::StageNotExistInBusy(after_stage_name, Some(stage)))
        } else {
            self.enqueue(
                AppCommand::PushStageToWorkBefore {
                    stage,
                    after_stage_name: after_stage_name.to_owned(),
                },
            );
            Ok(())
        }
    }

    /// Asks for `stage` to be appended to the busy list. The request is
    /// queued if no stage, busy or spare, has the name of `stage`; otherwise
    /// nothing changes and the stage comes back in the error.
    pub fn push_stage_to_work<'a>(&mut self, stage: AppStage) -> (result: Result<
        (),
        AppSettingsError<'a>,
    >)
        ensures
            answers(result, old(self).verdict(stage@, None), stage@, None),
            final(self).busy() == old(self).busy(),
            final(self).spare() == old(self).spare(),
            final(self).pending() == if result is Ok {
                old(self).pending().push(CommandView::PushStageToWork { stage: stage@ })
            } else {
                old(self).pending()
            },
    {
        if self.is_in_busy(stage.name()) {
            Err(AppSettingsError::DuplicateNameInBusy(stage))
        } else if self.is_in_spare(stage.name()) {
            Err(AppSettingsError::DuplicateNameInSpare(stage))
        } else {
            self.enqueue(AppCommand::PushStageToWork { stage });
            Ok(())
        }
    }

    /// Asks for `stage` to be inserted into the busy list right behind the
    /// busy stage called `before_stage_name`. The request is queued if no
    /// stage, busy or spare, has the name of `stage` and the anchor is busy;
    /// otherwise nothing changes and the stage comes back in the error.
    pub fn push_stage_to_work_after<'a>(
        &mut self,
        stage: AppStage,
        before_stage_name: &'a str,
    ) -> (result: Result<(), AppSettingsError<'a>>)
        ensures
            answers(
                result,
                old(self).verdict(stage@, Some(before_stage_name@)),
                stage@,
                Some(before_stage_name),
            ),
            final(self).busy() == old(self).busy(),
            final(self).spare() == old(self).spare(),
            final(self).pending() == if result is Ok {
                old(self).pending().push(
                    CommandView::PushStageToWorkAfter {
                        stage: stage@,
                        before_stage_name: before_stage_name@,
                    },
                )
            } else {
                old(self).pending()
            },
    {
        if self.is_in_busy(stage.name()) {
            Err(AppSettingsError::DuplicateNameInBusy(stage))
        } else if self.is_in_spare(stage.name()) {
            Err(AppSettingsError::DuplicateNameInSpare(stage))
        } else if !self.is_in_busy(before_stage_name) {
            Err(AppSettingsError::StageNotExistInBusy(before_stage_name, Some(stage)))
        } else {
            self.enqueue(
                AppCommand::PushStageToWorkAfter {
                    stage,
                    before_stage_name: before_stage_name.to_owned(),
                },
            );
            Ok(())
        }
    }

    /// What taking the spare stage called `stage_name` out of the spare list
    /// and asking for its place in the busy list comes to, `after` being the
    /// settings that `self` becomes and `command` the request to queue. A
    /// stage that is not spare is reported and nothing changes. Otherwise
    /// the stage leaves the spare list at once; if its place is refused, it
    /// comes back in the error and stays out of the spare list.
    pub open spec fn activates<'a>(
        self,
        after: AppSettings,
        result: Result<(), AppSettingsError<'a>>,
        stage_name: &'a str,
        anchor: Option<&'a str>,
        command: CommandView,
    ) -> bool {
        let index = first_index(self.spare_names(), stage_name@);
        let anchor_name = match anchor {
            Some(name) => Some(name@),
            None => None,
        };
        &&& after.busy() == self.busy()
        &&& if self.spare_names().contains(stage_name@) {
            let stage = self.spare()[index];
            let others = self.spare().remove(index);
            &&& after.spare() == others
            &&& answers(
                result,
                placement(self.busy_names(), stage_names(others), stage.name, anchor_name),
                stage,
                anchor,
            )
            &&& after.pending() == if result is Ok {
                self.pending().push(command)
            } else {
                self.pending()
            }
        } else {
            &&& result matches Err(AppSettingsError::StageNotExistInSpare(missing, None))
            &&& missing == stage_name
            &&& after.spare() == self.spare()
            &&& after.pending() == self.pending()
        }
    }

    /// The spare stage called `stage_name`; meaningful where there is one.
    pub open spec fn spare_named(self, stage_name: Seq<char>) -> StageView {
        self.spare()[first_index(self.spare_names(), stage_name)]
    }

    /// Takes the spare stage called `stage_name` out of the spare list and
    /// asks for it to be inserted into the busy list right before the busy
    /// stage called `after_stage_name`.
    pub fn make_spare_stage_work_before<'a>(
        &mut self,
        stage_name: &'a str,
        after_stage_name: &'a str,
    ) -> (result: Result<(), AppSettingsError<'a>>)
        ensures
            old(self).activates(
                *final(self),
                result,
                stage_name,
                Some(after_stage_name),
                CommandView::PushStageToWorkBefore {
                    stage: old(self).spare_named(stage_name@),
                    after_stage_name: after_stage_name@,
                },
            ),
    {
        if let Some(stage) = self.take_spare_stage(stage_name) {
            self.push_stage_to_work_before(stage, after_stage_name)
        } else {
            Err(AppSettingsError::StageNotExistInSpare(stage_name, None))
        }
    }

    /// Takes the spare stage called `stage_name` out of the spare list and
    /// asks for it to be appended to the busy list.
    pub fn make_spare_stage_work<'a>(&mut self, stage_name: &'a str) -> (result: Result<
        (),
        AppSettingsError<'a>,
    >)
        ensures
            old(self).activates(
                *final(self),
                result,
                stage_name,
                None,
                CommandView::PushStageToWork { stage: old(self).spare_named(stage_name@) },
            ),
    {
        if let Some(stage) = self.take_spare_stage(stage_name) {
            self.push_stage_to_work(stage)
        } else {
            Err(AppSettingsError::StageNotExistInSpare(stage_name, None))
        }
    }

    /// Takes the spare stage called `stage_name` out of the spare list and
    /// asks for it to be inserted into the busy list right behind the busy
    /// stage called `before_stage_name`.
    pub fn make_spare_stage_work_after<'a>(
        &mut self,
        stage_name: &'a str,
        before_stage_name: &'a str,
    ) -> (result: Result<(), AppSettingsError<'a>>)
        ensures
            old(self).activates(
                *final(self),
                result,
                stage_name,
                Some(before_stage_name),
                CommandView::PushStageToWorkAfter {
                    stage: old(self).spare_named(stage_name@),
                    before_stage_name: before_stage_name@,
                },
            ),
    {
        if let Some(stage) = self.take_spare_stage(stage_name) {
            self.push_stage_to_work_after(stage, before_stage_name)
        } else {
            Err(AppSettingsError::StageNotExistInSpare(stage_name, None))
        }
    }

    /// Parks `stage` at the end of the spare list, at once, if no stage, busy
    /// or spare, has its name; otherwise nothing changes and the stage comes
    /// back in the error.
    pub fn push_stage_to_rest<'a>(&mut self, stage: AppStage) -> (result: Result<
        (),
        AppSettingsError<'a>,
    >)
        ensures
            answers(result, old(self).verdict(stage@, None), stage@, None),
            final(self).busy() == old(self).busy(),
            final(self).pending() == old(self).pending(),
            final(self).spare() == if result is Ok {
                old(self).spare().push(stage@)
            } else {
                old(self).spare()
            },
    {
        if self.is_in_busy(stage.name()) {
            Err(AppSettingsError::DuplicateNameInBusy(stage))
        } else if self.is_in_spare(stage.name()) {
            Err(AppSettingsError::DuplicateNameInSpare(stage))
        } else {
            self.spare_stages.push(stage);
            assert(self.spare() =~= old(self).spare().push(stage@));
            Ok(())
        }
    }

    /// Asks for the busy stage called `stage_name` to be moved to the spare
    /// list. The request is queued if such a stage is busy; otherwise
    /// nothing changes.
    pub fn make_busy_stage_rest<'a>(&mut self, stage_name: &'a str) -> (result: Result<
        (),
        AppSettingsError<'a>,
    >)
        ensures
            final(self).busy() == old(self).busy(),
            final(self).spare() == old(self).spare(),
            if old(self).busy_names().contains(stage_name@) {
                &&& result is Ok
                &&& final(self).pending() == old(self).pending().push(
                    CommandView::MakeBusyStageToRest { stage_name: stage_name@ },
                )
            } else {
                &&& result matches Err(AppSettingsError::StageNotExistInBusy(missing, None))
                &&& missing == stage_name
                &&& final(self).pending() == old(self).pending()
            },
    {
        if self.is_in_busy(stage_name) {
            self.enqueue(AppCommand::MakeBusyStageToRest { stage_name: stage_name.to_owned() });
            Ok(())
        } else {
            Err(AppSettingsError::StageNotExistInBusy(stage_name, None))
        }
    }

    /// Changes the frequency of the stage called `stage_name`: at once if the
    /// stage is spare, by a queued request if it is busy. If it is neither,
    /// nothing changes.
    pub fn set_stage_frequency<'a>(&mut self, stage_name: &'a str, frequency: u32) -> (result:
        Result<(), AppSettingsError<'a>>)
        ensures
            final(self).busy() == old(self).busy(),
            if old(self).spare_names().contains(stage_name@) {
                let index = first_index(old(self).spare_names(), stage_name@);
                &&& result is Ok
                &&& final(self).pending() == old(self).pending()
                &&& final(self).spare() == old(self).spare().update(
                    index,
                    old(self).spare()[index].with_frequency(frequency as nat),
                )
            } else if old(self).busy_names().contains(stage_name@) {
                &&& result is Ok
                &&& final(self).spare() == old(self).spare()
                &&& final(self).pending() == old(self).pending().push(
                    CommandView::SetBusyStageFrequency {
                        stage_name: stage_name@,
                        frequency: frequency as nat,
                    },
                )
            } else {
                &&& result matches Err(AppSettingsError::StageNotExist(missing))
                &&& missing == stage_name
                &&& final(self).spare() == old(self).spare()
                &&& final(self).pending() == old(self).pending()
            },
    {
        if self.is_in_spare(stage_name) {
            match self.spare_stage_mut(stage_name) {
                Some(stage) => {
                    stage.set_frequency(frequency);
                },
                None => {},
            }
            Ok(())
        } else if self.is_in_busy(stage_name) {
            self.enqueue(
                AppCommand::SetBusyStageFrequency {
                    stage_name: stage_name.to_owned(),
                    frequency,
                },
            );
            Ok(())
        } else {
            Err(AppSettingsError::StageNotExist(stage_name))
        }
    }

    /// Asks for the run loop to end: the request is queued.
    pub fn quit(&mut self)
        ensures
            final(self).busy() == old(self).busy(),
            final(self).spare() == old(self).spare(),
            final(self).pending() == old(self).pending().push(CommandView::AppQuit),
    {
        self.enqueue(AppCommand::AppQuit);
    }

    /// Applies the queued commands to the busy list of the run loop and to
    /// the spare list, oldest first, and reports whether one of them asked
    /// to quit. Every command is checked again against the lists as it
    /// finds them. The first that they do not admit stops the batch: it
    /// stays in the queue with all behind it, and the fault is reported. In
    /// either case the records of the busy stages are brought in line with
    /// the busy list.
    pub fn apply(&mut self, busy_stages: &mut Vec<AppStage>) -> (result: Result<bool, AppFault>)
        ensures
            ({
                let outcome = Roster {
                    busy: stage_views(old(busy_stages)@),
                    spare: old(self).spare(),
                }.apply_batch(old(self).pending());
                &&& stage_views(final(busy_stages)@) == outcome.roster.busy
                &&& final(self).spare() == outcome.roster.spare
                &&& final(self).pending() == outcome.rest
                &&& final(self).busy() == snapshot(outcome.roster.busy)
                &&& result == if outcome.rest.len() == 0 {
                    Ok::<bool, AppFault>(outcome.quit)
                } else {
                    Err::<bool, AppFault>(AppFault::StaleCommand)
                }
            }),
    {
        let ghost whole = roster_of(busy_stages@, self.spare_stages@).apply_batch(self.pending());
        let mut quit = false;
        let mut stale = false;
        while !stale && self.commands.len() > 0
            invariant
                ({
                    let ahead = roster_of(busy_stages@, self.spare_stages@).apply_batch(
                        self.pending(),
                    );
                    &&& whole.roster == ahead.roster
                    &&& whole.rest == ahead.rest
                    &&& whole.quit == (quit || ahead.quit)
                }),
                stale ==> self.pending().len() > 0 && !roster_of(
                    busy_stages@,
                    self.spare_stages@,
                ).admits(self.pending()[0]),
            decreases self.commands.len() + if stale { 0int } else { 1int },
        {
            let ghost queue = self.pending();
            if admits(busy_stages, &self.spare_stages, &self.commands[0]) {
                let command = self.commands.pop_front().unwrap();
                assert(self.pending() =~= queue.drop_first());
                if let AppCommand::AppQuit = command {
                    quit = true;
                }
                perform(busy_stages, &mut self.spare_stages, command);
            } else {
                stale = true;
            }
        }
        self.record(busy_stages);
        if stale {
            Err(AppFault::StaleCommand)
        } else {
            Ok(quit)
        }
    }

    /// The number of commands that wait to be applied.
    pub fn pending_count(&self) -> (count: usize)
        ensures
            count == self.pending().len(),
    {
        self.commands.len()
    }

    /// Puts a command at the end of the queue.
    fn enqueue(&mut self, command: AppCommand)
        ensures
            final(self).busy() == old(self).busy(),
            final(self).spare() == old(self).spare(),
            final(self).pending() == old(self).pending().push(command@),
    {
        self.commands.push_back(command);
        assert(self.pending() =~= old(self).pending().push(command@));
    }
}

/// `core::fmt::Formatter::debug_struct`, for the settings: writes the
/// struct's name and the three lists.
#[verifier::external_body]
fn write_settings(
    f: &mut core::fmt::Formatter<'_>,
    busy_stages: &Vec<StageInfo>,
    spare_stages: &Vec<AppStage>,
    commands: &VecDeque<AppCommand>,
) -> (result: core::fmt::Result) {
    f.debug_struct("AppSettings").field("busy_stages", busy_stages).field(
        "spare_stages",
        spare_stages,
    ).field("commands", commands).finish()
}

impl core::fmt::Debug for AppSettings {
    /// Writes the records of the busy stages, the spare stages and the
    /// queued commands.
    fn fmt(&self, f: &mut core::fmt::Formatter<'_>) -> (result: core::fmt::Result) {
        write_settings(f, &self.busy_stages, &self.spare_stages, &self.commands)
    }
}

} // verus!
