//! The pipeline container: which elements a run has created and attached,
//! and the plan of engine commands that leads there.
//!
//! The container owns the elements of a run. A stage holds handles into it
//! and nothing else, so an element can be attached once and removed once.
use crate::engine::{
    CommandModel, EngineCommand, EngineState, PropertyValue, Step, StepModel, ValueModel,
};
use crate::recorder::errors::{fails_with, ErrorModel, RecorderError};
use vstd::prelude::*;
use vstd::string::*;

verus! {

/// The step that sets property `key` of `element` to `value`.
pub open spec fn property_step(element: usize, key: Seq<char>, value: ValueModel) -> StepModel {
    StepModel {
        command: CommandModel::SetProperty { element, key, value },
        message: "Error setting "@ + key,
        with_cause: false,
    }
}

/// The step that has the overruns of the queue `element` counted.
pub open spec fn overrun_step(element: usize) -> StepModel {
    StepModel {
        command: CommandModel::WatchOverrun { element },
        message: "Error watching overruns"@,
        with_cause: false,
    }
}

/// How many elements the steps of `plan` create.
pub open spec fn created_by(plan: Seq<StepModel>) -> nat
    decreases plan.len(),
{
    if plan.len() == 0 {
        0
    } else if plan.last().command is Create {
        created_by(plan.drop_last()) + 1
    } else {
        created_by(plan.drop_last())
    }
}

/// The elements that are in the container once every step of `plan` has
/// been carried out.
pub open spec fn attached_after(plan: Seq<StepModel>) -> Set<usize>
    decreases plan.len(),
{
    if plan.len() == 0 {
        Set::empty()
    } else {
        let before = attached_after(plan.drop_last());
        match plan.last().command {
            CommandModel::Add { elements } => Set::new(
                |e: usize| before.contains(e) || elements.contains(e),
            ),
            CommandModel::Remove { elements } => Set::new(
                |e: usize| before.contains(e) && !elements.contains(e),
            ),
            _ => before,
        }
    }
}

/// Every one of `elements` is in `attached`.
pub open spec fn all_within(elements: Seq<usize>, attached: Set<usize>) -> bool {
    forall|i: int| 0 <= i < elements.len() ==> attached.contains(#[trigger] elements[i])
}

/// Every one of `elements` has a handle below `created` and is outside
/// `attached`.
pub open spec fn all_free(elements: Seq<usize>, created: nat, attached: Set<usize>) -> bool {
    forall|i: int|
        0 <= i < elements.len() ==> (#[trigger] elements[i]) < created && !attached.contains(
            elements[i],
        )
}

/// Whether `command` may follow the steps of `plan`.
///
/// An element is created under the next free handle. Only a created element
/// has properties set; only elements that are not in the container are
/// added, each once; only elements in the container are linked or removed.
/// A plan changes no state and sends no end of stream.
pub open spec fn fits(plan: Seq<StepModel>, command: CommandModel) -> bool {
    let created = created_by(plan);
    let attached = attached_after(plan);
    match command {
        CommandModel::Create { element, factory, name } => element == created,
        CommandModel::SetProperty { element, key, value } => element < created,
        CommandModel::WatchOverrun { element } => element < created,
        CommandModel::Add { elements } => {
            elements.no_duplicates() && all_free(elements, created, attached)
        },
        CommandModel::Remove { elements } => {
            elements.no_duplicates() && all_within(elements, attached)
        },
        CommandModel::LinkMany { elements } => all_within(elements, attached),
        CommandModel::Link { from, to } => attached.contains(from) && attached.contains(to),
        CommandModel::SetState { state } => false,
        CommandModel::SendEos => false,
    }
}

/// A plan is sound when each of its steps may follow the steps before it.
pub open spec fn sound(plan: Seq<StepModel>) -> bool {
    forall|k: int| 0 <= k < plan.len() ==> fits(#[trigger] plan.take(k), plan[k].command)
}

/// Extending a sound plan by a step that fits gives a sound plan.
pub proof fn lemma_sound_push(plan: Seq<StepModel>, step: StepModel)
    requires
        sound(plan),
        fits(plan, step.command),
    ensures
        sound(plan.push(step)),
{
    let longer = plan.push(step);
    assert forall|k: int| 0 <= k < longer.len() implies fits(
        #[trigger] longer.take(k),
        longer[k].command,
    ) by {
        if k < plan.len() {
            assert(longer.take(k) =~= plan.take(k));
        } else {
            assert(longer.take(k) =~= plan);
        }
    }
}

/// A sound plan stays sound under one more step exactly when the step fits.
pub proof fn lemma_sound_one(plan: Seq<StepModel>, step: StepModel)
    requires
        sound(plan),
    ensures
        sound(plan + seq![step]) <==> fits(plan, step.command),
        plan + seq![step] == plan.push(step),
{
    let longer = plan + seq![step];
    assert(longer =~= plan.push(step));
    if fits(plan, step.command) {
        lemma_sound_push(plan, step);
    }
    if sound(longer) {
        assert(longer.take(plan.len() as int) =~= plan);
        assert(longer[plan.len() as int] == step);
    }
}

/// The steps that attach a chain of elements: they are added to the
/// container, then each is linked to the next.
pub open spec fn chain_attachment(
    elements: Seq<usize>,
    add_message: Seq<char>,
    link_message: Seq<char>,
    with_cause: bool,
) -> Seq<StepModel> {
    seq![
        StepModel { command: CommandModel::Add { elements }, message: add_message, with_cause },
        StepModel { command: CommandModel::LinkMany { elements }, message: link_message, with_cause },
    ]
}

/// A sound plan stays sound under the attachment of a chain exactly when
/// the chain's elements may be added.
pub proof fn lemma_sound_chain(
    plan: Seq<StepModel>,
    elements: Seq<usize>,
    add_message: Seq<char>,
    link_message: Seq<char>,
    with_cause: bool,
)
    requires
        sound(plan),
    ensures
        sound(plan + chain_attachment(elements, add_message, link_message, with_cause)) <==> fits(
            plan,
            CommandModel::Add { elements },
        ),
        plan + chain_attachment(elements, add_message, link_message, with_cause) == plan.push(
            chain_attachment(elements, add_message, link_message, with_cause)[0],
        ).push(chain_attachment(elements, add_message, link_message, with_cause)[1]),
{
    let chain = chain_attachment(elements, add_message, link_message, with_cause);
    let longer = plan + chain;
    let middle = plan.push(chain[0]);
    assert(longer =~= middle.push(chain[1]));
    if fits(plan, CommandModel::Add { elements }) {
        lemma_sound_push(plan, chain[0]);
        assert(middle.drop_last() =~= plan);
        assert forall|i: int| 0 <= i < elements.len() implies attached_after(middle).contains(
            #[trigger] elements[i],
        ) by {}
        lemma_sound_push(middle, chain[1]);
    }
    if sound(longer) {
        assert(longer.take(plan.len() as int) =~= plan);
        assert(longer[plan.len() as int] == chain[0]);
    }
}

/// The elements of `attached` together with `elements`.
pub open spec fn with_elements(attached: Set<usize>, elements: Seq<usize>) -> Set<usize> {
    Set::new(|e: usize| attached.contains(e) || elements.contains(e))
}

/// The elements of `attached` that are not among `elements`.
pub open spec fn without_elements(attached: Set<usize>, elements: Seq<usize>) -> Set<usize> {
    Set::new(|e: usize| attached.contains(e) && !elements.contains(e))
}

/// What a step does to the container: only adding and removing change what
/// is in it, and only creating changes how many elements there are.
pub proof fn lemma_step_effect(plan: Seq<StepModel>, step: StepModel)
    ensures
        step.command matches CommandModel::Add { elements } ==> attached_after(plan.push(step))
            == with_elements(attached_after(plan), elements),
        step.command matches CommandModel::Remove { elements } ==> attached_after(
            plan.push(step),
        ) == without_elements(attached_after(plan), elements),
        !(step.command is Add) && !(step.command is Remove) ==> attached_after(plan.push(step))
            == attached_after(plan),
        created_by(plan.push(step)) == created_by(plan) + (if step.command is Create {
            1nat
        } else {
            0nat
        }),
{
    assert(plan.push(step).drop_last() =~= plan);
}

/// Attaching a chain of distinct elements that are outside the container
/// keeps a plan sound, creates nothing, and brings exactly these elements
/// into the container.
pub proof fn lemma_chain_effect(
    plan: Seq<StepModel>,
    elements: Seq<usize>,
    add_message: Seq<char>,
    link_message: Seq<char>,
    with_cause: bool,
)
    requires
        sound(plan),
        fits(plan, CommandModel::Add { elements }),
    ensures
        sound(plan + chain_attachment(elements, add_message, link_message, with_cause)),
        created_by(plan + chain_attachment(elements, add_message, link_message, with_cause))
            == created_by(plan),
        attached_after(plan + chain_attachment(elements, add_message, link_message, with_cause))
            == with_elements(attached_after(plan), elements),
{
    let chain = chain_attachment(elements, add_message, link_message, with_cause);
    lemma_sound_chain(plan, elements, add_message, link_message, with_cause);
    lemma_step_effect(plan, chain[0]);
    lemma_step_effect(plan.push(chain[0]), chain[1]);
}

/// One step that fits keeps a plan sound and has the effect that
/// [`lemma_step_effect`] states.
pub proof fn lemma_one_effect(plan: Seq<StepModel>, step: StepModel)
    requires
        sound(plan),
        fits(plan, step.command),
    ensures
        sound(plan + seq![step]),
        created_by(plan + seq![step]) == created_by(plan) + (if step.command is Create {
            1nat
        } else {
            0nat
        }),
        step.command matches CommandModel::Add { elements } ==> attached_after(plan + seq![step])
            == with_elements(attached_after(plan), elements),
        step.command matches CommandModel::Remove { elements } ==> attached_after(
            plan + seq![step],
        ) == without_elements(attached_after(plan), elements),
        !(step.command is Add) && !(step.command is Remove) ==> attached_after(plan + seq![step])
            == attached_after(plan),
{
    lemma_sound_one(plan, step);
    lemma_step_effect(plan, step);
}

/// Every prefix of a sound plan is sound.
pub proof fn lemma_sound_take(plan: Seq<StepModel>, n: int)
    requires
        sound(plan),
        0 <= n <= plan.len(),
    ensures
        sound(plan.take(n)),
{
    let shorter = plan.take(n);
    assert forall|k: int| 0 <= k < shorter.len() implies fits(
        #[trigger] shorter.take(k),
        shorter[k].command,
    ) by {
        assert(shorter.take(k) =~= plan.take(k));
    }
}

/// A longer plan has created at least as many elements as any of its
/// prefixes.
pub proof fn lemma_created_grows(plan: Seq<StepModel>, n: int)
    requires
        0 <= n <= plan.len(),
    ensures
        created_by(plan.take(n)) <= created_by(plan),
    decreases plan.len(),
{
    if n == plan.len() {
        assert(plan.take(n) =~= plan);
    } else {
        assert(plan.drop_last().take(n) =~= plan.take(n));
        lemma_created_grows(plan.drop_last(), n);
    }
}

/// In a sound plan, only created elements are in the container.
pub proof fn lemma_attached_are_created(plan: Seq<StepModel>)
    requires
        sound(plan),
    ensures
        forall|e: usize| attached_after(plan).contains(e) ==> e < created_by(plan),
    decreases plan.len(),
{
    if plan.len() > 0 {
        let before = plan.drop_last();
        assert(before =~= plan.take(plan.len() - 1));
        lemma_sound_take(plan, plan.len() - 1);
        lemma_attached_are_created(before);
        assert(fits(plan.take(plan.len() - 1), plan[plan.len() - 1].command));
        assert forall|e: usize| attached_after(plan).contains(e) implies e < created_by(
            plan,
        ) by {
            if !attached_after(before).contains(e) {
                let elements = plan.last().command->Add_elements;
                let i = choose|i: int| 0 <= i < elements.len() && elements[i] == e;
                assert(elements[i] < created_by(before));
            }
        }
    }
}

/// The elements that may be in the engine's container when it carried out
/// the first `executed` steps of `plan` and then stopped: those that these
/// steps left attached and, where the next step adds elements and may have
/// failed halfway, those as well.
pub open spec fn left_behind(plan: Seq<StepModel>, executed: int) -> Set<usize> {
    let done = attached_after(plan.take(executed));
    if 0 <= executed < plan.len() && plan[executed].command is Add {
        let elements = plan[executed].command->Add_elements;
        Set::new(|e: usize| done.contains(e) || elements.contains(e))
    } else {
        done
    }
}

/// Each element of `handles` is smaller than the one after it.
pub open spec fn increasing(handles: Seq<usize>) -> bool {
    forall|i: int, j: int| 0 <= i < j < handles.len() ==> handles[i] < handles[j]
}

/// True when `elements` holds exactly the handles in `set`.
pub open spec fn lists(elements: Seq<usize>, set: Set<usize>) -> bool {
    forall|e: usize| elements.contains(e) <==> set.contains(e)
}

/// True when `commands` undo a run whose engine carried out the first
/// `executed` steps of `plan` and no more: the container goes to `Null`,
/// then every element that may be in it is removed, lowest handle first.
pub open spec fn undoes(commands: Seq<CommandModel>, plan: Seq<StepModel>, executed: int) -> bool {
    &&& commands.len() == 2
    &&& commands[0] == CommandModel::SetState { state: EngineState::Null }
    &&& commands[1] is Remove
    &&& increasing(commands[1]->Remove_elements)
    &&& lists(commands[1]->Remove_elements, left_behind(plan, executed))
}

/// How many steps of a plan of `len` steps count as carried out when the
/// engine reports `executed`.
pub open spec fn clamped(executed: usize, len: nat) -> int {
    if executed <= len {
        executed as int
    } else {
        len as int
    }
}

/// A sound plan starts nothing: none of its steps changes the state of the
/// container or sends an end of stream.
pub proof fn lemma_plan_changes_no_state(plan: Seq<StepModel>, k: int)
    requires
        sound(plan),
        0 <= k < plan.len(),
    ensures
        !(plan[k].command is SetState),
        !(plan[k].command is SendEos),
{
    assert(fits(plan.take(k), plan[k].command));
}

/// Nothing is attached twice: in a sound plan, a step that adds elements
/// adds none that the steps before it left in the container, and none
/// twice.
pub proof fn lemma_no_double_attach(plan: Seq<StepModel>, k: int)
    requires
        sound(plan),
        0 <= k < plan.len(),
        plan[k].command is Add,
    ensures
        plan[k].command->Add_elements.no_duplicates(),
        forall|i: int|
            0 <= i < plan[k].command->Add_elements.len() ==> !attached_after(plan.take(k)).contains(
                #[trigger] plan[k].command->Add_elements[i],
            ),
{
    assert(fits(plan.take(k), plan[k].command));
}

/// Undoing leaves nothing attached: when the engine has carried out the
/// first `executed` steps of a plan and then removes what `commands` name,
/// no element is in the container.
pub proof fn lemma_undone_is_empty(
    commands: Seq<CommandModel>,
    plan: Seq<StepModel>,
    executed: int,
    remove: StepModel,
)
    requires
        0 <= executed <= plan.len(),
        undoes(commands, plan, executed),
        remove.command == commands[1],
    ensures
        attached_after(plan.take(executed).push(remove)) == Set::<usize>::empty(),
{
    let done = plan.take(executed);
    lemma_step_effect(done, remove);
    assert(attached_after(done.push(remove)) =~= Set::<usize>::empty());
}

/// Sets the flag of each of `elements` to `value`.
fn mark(flags: &mut Vec<bool>, elements: &Vec<usize>, value: bool)
    requires
        forall|i: int| 0 <= i < elements@.len() ==> (#[trigger] elements@[i]) < old(flags)@.len(),
    ensures
        final(flags)@.len() == old(flags)@.len(),
        forall|e: usize|
            e < old(flags)@.len() ==> final(flags)@[e as int] == (if elements@.contains(e) {
                value
            } else {
                old(flags)@[e as int]
            }),
{
    let mut i: usize = 0;
    while i < elements.len()
        invariant
            i <= elements.len(),
            flags@.len() == old(flags)@.len(),
            forall|k: int| 0 <= k < elements@.len() ==> (#[trigger] elements@[k]) < flags@.len(),
            forall|e: usize|
                e < flags@.len() ==> flags@[e as int] == (if elements@.take(i as int).contains(e) {
                    value
                } else {
                    old(flags)@[e as int]
                }),
        decreases elements.len() - i,
    {
        let e = elements[i];
        assert(elements@[i as int] < flags@.len());
        flags.set(e, value);
        proof {
            let now = elements@.take(i as int + 1);
            let before = elements@.take(i as int);
            assert(now.drop_last() =~= before);
            assert forall|x: usize| x < flags@.len() implies flags@[x as int] == (if now.contains(
                x,
            ) {
                value
            } else {
                old(flags)@[x as int]
            }) by {
                if x == e {
                    assert(now[i as int] == x);
                } else if before.contains(x) {
                    let k = choose|k: int| 0 <= k < before.len() && before[k] == x;
                    assert(now[k] == x);
                } else if now.contains(x) {
                    let k = choose|k: int| 0 <= k < now.len() && now[k] == x;
                    assert(before[k] == x);
                }
            }
        }
        i = i + 1;
    }
    assert(elements@.take(elements@.len() as int) =~= elements@);
}

/// A copy of `flags`.
fn copy_flags(flags: &Vec<bool>) -> (res: Vec<bool>)
    ensures
        res@ == flags@,
{
    let mut res: Vec<bool> = Vec::new();
    let mut i: usize = 0;
    while i < flags.len()
        invariant
            i <= flags.len(),
            res@ == flags@.take(i as int),
        decreases flags.len() - i,
    {
        res.push(flags[i]);
        assert(res@ =~= flags@.take(i as int + 1));
        i = i + 1;
    }
    assert(flags@.take(flags.len() as int) =~= flags@);
    res
}

/// A copy of `handles`.
pub fn copy_handles(handles: &Vec<usize>) -> (res: Vec<usize>)
    ensures
        res@ == handles@,
{
    let mut res: Vec<usize> = Vec::new();
    let mut i: usize = 0;
    while i < handles.len()
        invariant
            i <= handles.len(),
            res@ == handles@.take(i as int),
        decreases handles.len() - i,
    {
        res.push(handles[i]);
        assert(res@ =~= handles@.take(i as int + 1));
        i = i + 1;
    }
    assert(handles@.take(handles.len() as int) =~= handles@);
    res
}

/// Plans the attachment of a chain of elements: see [`chain_attachment`].
/// Refused, with nothing planned, where the elements may not be added.
pub fn attach_chain(
    pipeline: &mut Container,
    elements: Vec<usize>,
    add_message: String,
    link_message: String,
    with_cause: bool,
) -> (res: Result<(), RecorderError>)
    requires
        old(pipeline).wf(),
    ensures
        final(pipeline).wf(),
        sound(
            old(pipeline).plan() + chain_attachment(
                elements@,
                add_message@,
                link_message@,
                with_cause,
            ),
        ) ==> res is Ok && final(pipeline).plan() == old(pipeline).plan() + chain_attachment(
            elements@,
            add_message@,
            link_message@,
            with_cause,
        ),
        !sound(
            old(pipeline).plan() + chain_attachment(
                elements@,
                add_message@,
                link_message@,
                with_cause,
            ),
        ) ==> fails_with(res, ErrorModel::ElementError(add_message@)) && final(pipeline).plan()
            == old(pipeline).plan(),
{
    proof {
        pipeline.lemma_wf_is_sound();
        lemma_sound_chain(pipeline.plan(), elements@, add_message@, link_message@, with_cause);
    }
    let ghost before = pipeline.plan();
    let again = copy_handles(&elements);
    match pipeline.add_many(elements, add_message, with_cause) {
        Err(e) => Err(e),
        Ok(()) => {
            proof {
                let middle = pipeline.plan();
                assert(middle.drop_last() =~= before);
                assert forall|i: int| 0 <= i < again@.len() implies attached_after(middle).contains(
                    #[trigger] again@[i],
                ) by {}
            }
            let linked = pipeline.link_many(again, link_message, with_cause);
            linked
        },
    }
}

/// The pipeline container of one run.
#[derive(Debug)]
pub struct Container {
    /// For each created element, whether it is in the container.
    attached: Vec<bool>,
    /// The commands that bring the engine's container to this state.
    steps: Vec<Step>,
}

impl Container {
    /// The plan recorded so far.
    pub closed spec fn plan(&self) -> Seq<StepModel> {
        self.steps.deep_view()
    }

    /// The recorded plan is sound, and the flags agree with it.
    pub closed spec fn wf(&self) -> bool {
        &&& sound(self.plan())
        &&& self.attached@.len() == created_by(self.plan())
        &&& forall|e: usize|
            e < self.attached@.len() ==> self.attached@[e as int] == attached_after(
                self.plan(),
            ).contains(e)
    }

    /// How many elements were created.
    pub open spec fn count(&self) -> nat {
        created_by(self.plan())
    }

    /// The elements that are in the container.
    pub open spec fn attached(&self) -> Set<usize> {
        attached_after(self.plan())
    }

    /// Whether element `e` is in the container.
    pub open spec fn holds(&self, e: usize) -> bool {
        self.attached().contains(e)
    }

    /// A well-formed container records a sound plan.
    pub proof fn lemma_wf_is_sound(&self)
        requires
            self.wf(),
        ensures
            sound(self.plan()),
    {
    }

    /// An empty container: nothing created, nothing planned.
    pub fn new() -> (res: Container)
        ensures
            res.wf(),
            res.count() == 0,
            res.attached() == Set::<usize>::empty(),
            res.plan() == Seq::<StepModel>::empty(),
    {
        let res = Container { attached: Vec::new(), steps: Vec::new() };
        assert(res.plan() =~= Seq::<StepModel>::empty());
        res
    }

    /// How many elements were created.
    pub fn len(&self) -> (res: usize)
        requires
            self.wf(),
        ensures
            res == self.count(),
    {
        self.attached.len()
    }

    /// Whether `element` was created and is in the container.
    pub fn is_attached(&self, element: usize) -> (res: bool)
        requires
            self.wf(),
        ensures
            res == self.holds(element),
    {
        proof {
            lemma_attached_are_created(self.plan());
        }
        element < self.attached.len() && self.attached[element]
    }

    /// The plan recorded so far.
    pub fn steps(&self) -> (res: &Vec<Step>)
        ensures
            res.deep_view() == self.plan(),
    {
        &self.steps
    }

    /// Records `step`, which leaves in the container what was in it and
    /// creates nothing.
    fn keep(&mut self, step: Step)
        requires
            old(self).wf(),
            fits(old(self).plan(), step@.command),
            !(step@.command is Create),
            !(step@.command is Add),
            !(step@.command is Remove),
        ensures
            final(self).wf(),
            final(self).plan() == old(self).plan().push(step@),
            final(self).count() == old(self).count(),
            final(self).attached() == old(self).attached(),
    {
        proof {
            lemma_step_effect(self.plan(), step@);
        }
        let mut attached: Vec<bool> = Vec::new();
        std::mem::swap(&mut attached, &mut self.attached);
        self.record(step, attached);
    }

    /// Records `step`, which fits the plan, with the flags that follow from it.
    fn record(&mut self, step: Step, attached: Vec<bool>)
        requires
            sound(old(self).plan()),
            fits(old(self).plan(), step@.command),
            attached@.len() == created_by(old(self).plan().push(step@)),
            forall|e: usize|
                e < attached@.len() ==> attached@[e as int] == attached_after(
                    old(self).plan().push(step@),
                ).contains(e),
        ensures
            final(self).wf(),
            final(self).plan() == old(self).plan().push(step@),
    {
        proof {
            lemma_sound_push(self.plan(), step@);
        }
        let ghost before = self.steps.deep_view();
        self.steps.push(step);
        self.attached = attached;
        assert(self.steps.deep_view() =~= before.push(step@));
    }

    /// Plans the creation of an element of type `factory` called `name`, and
    /// returns its handle. `message` is the error for a failed creation.
    pub fn create(&mut self, factory: &str, name: &str, message: String) -> (res: usize)
        requires
            old(self).wf(),
        ensures
            final(self).wf(),
            res == old(self).count(),
            final(self).count() == old(self).count() + 1,
            final(self).attached() == old(self).attached(),
            final(self).plan() == old(self).plan().push(
                StepModel {
                    command: CommandModel::Create { element: res, factory: factory@, name: name@ },
                    message: message@,
                    with_cause: false,
                },
            ),
    {
        let element = self.attached.len();
        let step = Step {
            command: EngineCommand::Create {
                element,
                factory: String::from_str(factory),
                name: String::from_str(name),
            },
            message,
            with_cause: false,
        };
        let mut attached: Vec<bool> = Vec::new();
        std::mem::swap(&mut attached, &mut self.attached);
        let ghost flags = attached@;
        attached.push(false);
        proof {
            let longer = self.plan().push(step@);
            assert(longer.drop_last() =~= self.plan());
            assert(longer.last() == step@);
            assert(attached_after(longer) == attached_after(self.plan()));
            assert(created_by(longer) == created_by(self.plan()) + 1);
            lemma_attached_are_created(self.plan());
            assert forall|e: usize| e < attached@.len() implies attached@[e as int]
                == attached_after(longer).contains(e) by {
                if e < flags.len() {
                    assert(attached@[e as int] == flags[e as int]);
                }
            }
        }
        self.record(step, attached);
        element
    }

    /// Plans adding `elements` to the container.
    ///
    /// Refused, with nothing recorded, unless every one of them was created,
    /// is outside the container and is named once.
    pub fn add_many(&mut self, elements: Vec<usize>, message: String, with_cause: bool) -> (res:
        Result<(), RecorderError>)
        requires
            old(self).wf(),
        ensures
            final(self).wf(),
            fits(old(self).plan(), CommandModel::Add { elements: elements@ }) ==> res is Ok
                && final(self).plan() == old(self).plan().push(
                StepModel {
                    command: CommandModel::Add { elements: elements@ },
                    message: message@,
                    with_cause,
                },
            ),
            !fits(old(self).plan(), CommandModel::Add { elements: elements@ }) ==> fails_with(
                res,
                ErrorModel::ElementError(message@),
            ) && final(self).plan() == old(self).plan(),
    {
        let n = self.attached.len();
        let mut seen = copy_flags(&self.attached);
        let mut i: usize = 0;
        let ghost plan = self.plan();
        proof {
            lemma_attached_are_created(plan);
        }
        while i < elements.len()
            invariant
                i <= elements.len(),
                seen@.len() == n,
                n == self.attached@.len(),
                n == created_by(plan),
                plan == self.plan(),
                self.wf(),
                forall|e: usize|
                    e < n ==> seen@[e as int] == (attached_after(plan).contains(e) || exists|j: int|
                        0 <= j < i && elements@[j] == e),
                forall|j: int|
                    0 <= j < i ==> (#[trigger] elements@[j]) < n && !attached_after(plan).contains(
                        elements@[j],
                    ),
                forall|j: int, k: int| 0 <= j < k < i ==> elements@[j] != elements@[k],
            decreases elements.len() - i,
        {
            let e = elements[i];
            if e >= n || seen[e] {
                proof {
                    if fits(plan, CommandModel::Add { elements: elements@ }) {
                        assert(elements@[i as int] < n);
                        assert(!attached_after(plan).contains(elements@[i as int]));
                        let j = choose|j: int| 0 <= j < i && elements@[j] == e;
                        assert(elements@[j] == elements@[i as int]);
                        assert(false);
                    }
                }
                return Err(RecorderError::ElementError(message));
            }
            seen.set(e, true);
            i = i + 1;
        }
        let step = Step { command: EngineCommand::Add { elements }, message, with_cause };
        proof {
            let longer = plan.push(step@);
            assert(longer.drop_last() =~= plan);
            assert(longer.last() == step@);
            assert(fits(plan, step@.command));
            assert forall|e: usize| e < seen@.len() implies seen@[e as int] == attached_after(
                longer,
            ).contains(e) by {
                let es = step@.command->Add_elements;
                if es.contains(e) {
                    let j = choose|j: int| 0 <= j < es.len() && es[j] == e;
                    assert(0 <= j < i && elements@[j] == e);
                }
            }
        }
        self.record(step, seen);
        Ok(())
    }

    /// Plans removing `elements` from the container.
    ///
    /// Refused, with nothing recorded, unless every one of them is in the
    /// container and is named once.
    pub fn remove_many(&mut self, elements: Vec<usize>, message: String, with_cause: bool) -> (res:
        Result<(), RecorderError>)
        requires
            old(self).wf(),
        ensures
            final(self).wf(),
            fits(old(self).plan(), CommandModel::Remove { elements: elements@ }) ==> res is Ok
                && final(self).plan() == old(self).plan().push(
                StepModel {
                    command: CommandModel::Remove { elements: elements@ },
                    message: message@,
                    with_cause,
                },
            ),
            !fits(old(self).plan(), CommandModel::Remove { elements: elements@ }) ==> fails_with(
                res,
                ErrorModel::ElementError(message@),
            ) && final(self).plan() == old(self).plan(),
    {
        let n = self.attached.len();
        let mut left = copy_flags(&self.attached);
        let mut i: usize = 0;
        let ghost plan = self.plan();
        proof {
            lemma_attached_are_created(plan);
        }
        while i < elements.len()
            invariant
                i <= elements.len(),
                left@.len() == n,
                n == self.attached@.len(),
                n == created_by(plan),
                plan == self.plan(),
                self.wf(),
                forall|e: usize| attached_after(plan).contains(e) ==> e < n,
                forall|e: usize|
                    e < n ==> left@[e as int] == (attached_after(plan).contains(e) && !exists|
                        j: int,
                    |
                        0 <= j < i && elements@[j] == e),
                forall|j: int| 0 <= j < i ==> attached_after(plan).contains(#[trigger] elements@[j]),
                forall|j: int, k: int| 0 <= j < k < i ==> elements@[j] != elements@[k],
            decreases elements.len() - i,
        {
            let e = elements[i];
            if e >= n || !left[e] {
                proof {
                    if fits(plan, CommandModel::Remove { elements: elements@ }) {
                        assert(attached_after(plan).contains(elements@[i as int]));
                        let j = choose|j: int| 0 <= j < i && elements@[j] == e;
                        assert(elements@[j] == elements@[i as int]);
                        assert(false);
                    }
                }
                return Err(RecorderError::ElementError(message));
            }
            left.set(e, false);
            i = i + 1;
        }
        let step = Step { command: EngineCommand::Remove { elements }, message, with_cause };
        proof {
            let longer = plan.push(step@);
            assert(longer.drop_last() =~= plan);
            assert(longer.last() == step@);
            assert(fits(plan, step@.command));
            assert forall|e: usize| e < left@.len() implies left@[e as int] == attached_after(
                longer,
            ).contains(e) by {
                let es = step@.command->Remove_elements;
                if es.contains(e) {
                    let j = choose|j: int| 0 <= j < es.len() && es[j] == e;
                    assert(0 <= j < i && elements@[j] == e);
                }
            }
        }
        self.record(step, left);
        Ok(())
    }

    /// Plans linking each of `elements` to the one after it.
    ///
    /// Refused, with nothing recorded, unless every one of them is in the
    /// container.
    pub fn link_many(&mut self, elements: Vec<usize>, message: String, with_cause: bool) -> (res:
        Result<(), RecorderError>)
        requires
            old(self).wf(),
        ensures
            final(self).wf(),
            fits(old(self).plan(), CommandModel::LinkMany { elements: elements@ }) ==> res is Ok
                && final(self).plan() == old(self).plan().push(
                StepModel {
                    command: CommandModel::LinkMany { elements: elements@ },
                    message: message@,
                    with_cause,
                },
            ),
            !fits(old(self).plan(), CommandModel::LinkMany { elements: elements@ }) ==> fails_with(
                res,
                ErrorModel::ElementError(message@),
            ) && final(self).plan() == old(self).plan(),
    {
        let mut i: usize = 0;
        let ghost plan = self.plan();
        while i < elements.len()
            invariant
                i <= elements.len(),
                self.wf(),
                plan == self.plan(),
                forall|j: int| 0 <= j < i ==> attached_after(plan).contains(#[trigger] elements@[j]),
            decreases elements.len() - i,
        {
            if !self.is_attached(elements[i]) {
                assert(!attached_after(plan).contains(elements@[i as int]));
                return Err(RecorderError::ElementError(message));
            }
            i = i + 1;
        }
        let step = Step { command: EngineCommand::LinkMany { elements }, message, with_cause };
        self.keep(step);
        Ok(())
    }

    /// Plans linking the outlet `from` to the inlet `to`.
    ///
    /// Refused, with nothing recorded, unless both are in the container.
    pub fn link(&mut self, from: usize, to: usize, message: String, with_cause: bool) -> (res:
        Result<(), RecorderError>)
        requires
            old(self).wf(),
        ensures
            final(self).wf(),
            old(self).holds(from) && old(self).holds(to) ==> res is Ok && final(self).plan() == old(
                self,
            ).plan().push(
                StepModel { command: CommandModel::Link { from, to }, message: message@, with_cause },
            ),
            !(old(self).holds(from) && old(self).holds(to)) ==> fails_with(
                res,
                ErrorModel::ElementError(message@),
            ) && final(self).plan() == old(self).plan(),
    {
        if !self.is_attached(from) || !self.is_attached(to) {
            return Err(RecorderError::ElementError(message));
        }
        let step = Step { command: EngineCommand::Link { from, to }, message, with_cause };
        self.keep(step);
        Ok(())
    }

    /// The commands that undo a run whose engine carried out the first
    /// `executed` steps of the plan and no more: the container goes to
    /// `Null`, and every element that may be in it is removed, lowest handle
    /// first. With `executed` at or past the plan's length the whole plan
    /// counts as carried out.
    pub fn teardown(&self, executed: usize) -> (res: Vec<EngineCommand>)
        requires
            self.wf(),
        ensures
            undoes(res.deep_view(), self.plan(), clamped(executed, self.plan().len())),
    {
        let n = self.attached.len();
        let k = if executed <= self.steps.len() {
            executed
        } else {
            self.steps.len()
        };
        let ghost plan = self.plan();
        let mut flags: Vec<bool> = Vec::new();
        while flags.len() < n
            invariant
                flags@.len() <= n,
                forall|e: int| 0 <= e < flags@.len() ==> !flags@[e],
            decreases n - flags@.len(),
        {
            flags.push(false);
        }
        assert(plan.take(0) =~= Seq::<StepModel>::empty());
        let mut j: usize = 0;
        while j < k
            invariant
                j <= k <= self.steps.len(),
                plan == self.plan(),
                plan.len() == self.steps@.len(),
                self.wf(),
                flags@.len() == n,
                n == created_by(plan),
                forall|e: usize|
                    e < n ==> flags@[e as int] == attached_after(plan.take(j as int)).contains(e),
            decreases k - j,
        {
            proof {
                let now = plan.take(j as int + 1);
                assert(now.drop_last() =~= plan.take(j as int));
                assert(now.last() == plan[j as int]);
                assert(plan[j as int] == self.steps@[j as int]@);
                assert(fits(plan.take(j as int), plan[j as int].command));
                lemma_sound_take(plan, j as int);
                lemma_attached_are_created(plan.take(j as int));
                lemma_created_grows(plan, j as int);
            }
            match &self.steps[j].command {
                EngineCommand::Add { elements } => {
                    mark(&mut flags, elements, true);
                },
                EngineCommand::Remove { elements } => {
                    mark(&mut flags, elements, false);
                },
                _ => {},
            }
            j = j + 1;
        }
        if k < self.steps.len() {
            proof {
                assert(plan[k as int] == self.steps@[k as int]@);
                assert(fits(plan.take(k as int), plan[k as int].command));
                lemma_created_grows(plan, k as int);
            }
            match &self.steps[k].command {
                EngineCommand::Add { elements } => {
                    mark(&mut flags, elements, true);
                },
                _ => {},
            }
        }
        let ghost risk = left_behind(plan, k as int);
        proof {
            lemma_sound_take(plan, k as int);
            lemma_attached_are_created(plan.take(k as int));
            lemma_created_grows(plan, k as int);
            if k < plan.len() && plan[k as int].command is Add {
                assert(fits(plan.take(k as int), plan[k as int].command));
            }
            assert forall|e: usize| risk.contains(e) implies e < n by {
                if !attached_after(plan.take(k as int)).contains(e) {
                    let elements = plan[k as int].command->Add_elements;
                    let i = choose|i: int| 0 <= i < elements.len() && elements[i] == e;
                    assert(elements[i] < created_by(plan.take(k as int)));
                }
            }
        }
        let mut elements: Vec<usize> = Vec::new();
        let mut h: usize = 0;
        while h < n
            invariant
                h <= n,
                flags@.len() == n,
                increasing(elements@),
                forall|i: int| 0 <= i < elements@.len() ==> elements@[i] < h,
                forall|e: usize| elements@.contains(e) <==> e < h && flags@[e as int],
            decreases n - h,
        {
            if flags[h] {
                let ghost before = elements@;
                elements.push(h);
                proof {
                    assert forall|e: usize| elements@.contains(e) <==> e < h + 1 && flags@[e as int] by {
                        if e == h {
                            assert(elements@[before.len() as int] == e);
                        } else if before.contains(e) {
                            let i = choose|i: int| 0 <= i < before.len() && before[i] == e;
                            assert(elements@[i] == e);
                        } else if elements@.contains(e) {
                            let i = choose|i: int| 0 <= i < elements@.len() && elements@[i] == e;
                            assert(before[i] == e);
                        }
                    }
                }
            }
            h = h + 1;
        }
        let mut res: Vec<EngineCommand> = Vec::new();
        res.push(EngineCommand::SetState { state: EngineState::Null });
        res.push(EngineCommand::Remove { elements });
        assert(res.deep_view()[0] == res@[0]@);
        assert(res.deep_view()[1] == res@[1]@);
        res
    }

    /// Plans setting property `key` of `element` to `value`.
    pub fn set_property(&mut self, element: usize, key: &str, value: PropertyValue)
        requires
            old(self).wf(),
            element < old(self).count(),
        ensures
            final(self).wf(),
            final(self).count() == old(self).count(),
            final(self).attached() == old(self).attached(),
            final(self).plan() == old(self).plan().push(property_step(element, key@, value@)),
    {
        let step = Step {
            command: EngineCommand::SetProperty { element, key: String::from_str(key), value },
            message: String::from_str("Error setting ").concat(key),
            with_cause: false,
        };
        self.keep(step);
    }

    /// Plans counting the overruns of the queue `element`.
    pub fn watch_overrun(&mut self, element: usize)
        requires
            old(self).wf(),
            element < old(self).count(),
        ensures
            final(self).wf(),
            final(self).count() == old(self).count(),
            final(self).attached() == old(self).attached(),
            final(self).plan() == old(self).plan().push(overrun_step(element)),
    {
        let step = Step {
            command: EngineCommand::WatchOverrun { element },
            message: String::from_str("Error watching overruns"),
            with_cause: false,
        };
        self.keep(step);
    }
}

} // verus!
