//! The terminal controller: the three input modes and what each key does in
//! each of them.
//!
//! [`App::handle_key`] is the whole transition function. It changes the
//! application state and answers with an [`Action`] that tells the event loop
//! what outside work the key has caused.

use crate::configuration::{configuration_models, Configuration, ConfigurationModel};
use crate::error::Error;
use crate::search::{
    all_indices, lemma_visible_empty_query, lemma_visible_exact, names_of, visible, visible_indices,
};
use crate::store::{
    command_models, creation_commands, deactivation_commands, lemma_added_wf,
    lemma_delete_active, lemma_removed_wf, Command, CommandModel, Store, StoreModel,
};
use crate::wizard::{lemma_wizard_steps_keep_wf, CreationField, CreationState, WizardModel};
use ratatui::widgets::ListState;
use vstd::prelude::*;
use vstd::string::*;

verus! {

/// The selection state of a list widget of ratatui, carried as it is.
#[verifier::external_type_specification]
#[verifier::external_body]
pub struct ExListState(ratatui::widgets::ListState);

/// The row that a list state holds as selected, if any.
pub uninterp spec fn selected_row(state: ListState) -> Option<usize>;

/// `ListState::default` of ratatui: a list state with no row selected.
#[verifier::external_body]
fn fresh_list_state() -> (state: ListState)
    ensures
        selected_row(state).is_none(),
{
    ListState::default()
}

/// `ListState::selected` of ratatui returns the selected row.
pub assume_specification[ ListState::selected ](state: &ListState) -> (row: Option<usize>)
    ensures
        row == selected_row(*state),
;

/// `ListState::select` of ratatui stores the given row as the selected one.
pub assume_specification[ ListState::select ](state: &mut ListState, index: Option<usize>)
    ensures
        selected_row(*final(state)) == index,
;

/// Which handler receives the keys.
#[derive(Clone, Copy, Debug, PartialEq, Eq, Structural)]
pub enum InputMode {
    /// Browsing the list.
    Normal,
    /// Typing the search query.
    Editing,
    /// Filling in the creation wizard.
    Creating,
}

/// The pane that has the focus.
#[derive(Clone, Copy, Debug, PartialEq, Eq, Structural)]
pub enum Focus {
    ConfigList,
    ProxyList,
    RulesList,
}

impl Focus {
    /// The pane after this one, around the three.
    pub open spec fn following(self) -> Focus {
        match self {
            Focus::ConfigList => Focus::ProxyList,
            Focus::ProxyList => Focus::RulesList,
            Focus::RulesList => Focus::ConfigList,
        }
    }
}

/// A key press, as far as the application tells keys apart.
#[derive(Clone, Copy, Debug, PartialEq, Eq, Structural)]
pub enum Key {
    Char(char),
    Enter,
    Esc,
    Backspace,
    Up,
    Down,
    Delete,
    Tab,
    /// Any other key.
    Other,
}

/// What the event loop has to do after a key.
#[derive(Debug, PartialEq, Eq)]
pub enum Action {
    /// Nothing but to redraw.
    Nothing,
    /// Leave the event loop.
    Quit,
    /// Carry out the commands in order. The state is final already: a
    /// command that fails is reported and the rest still runs.
    Execute { commands: Vec<Command> },
    /// Carry out the commands of an activation in order, stop at the first
    /// that fails, and pass the outcome to [`App::activation_finished`].
    Activate { index: usize, commands: Vec<Command> },
    /// Show the error; nothing else happened.
    Report { error: Error },
}

/// The mathematical value of an [`Action`].
pub enum ActionModel {
    Nothing,
    Quit,
    Execute { commands: Seq<CommandModel> },
    Activate { index: usize, commands: Seq<CommandModel> },
    Report { error: Error },
}

impl View for Action {
    type V = ActionModel;

    open spec fn view(&self) -> ActionModel {
        match *self {
            Action::Nothing => ActionModel::Nothing,
            Action::Quit => ActionModel::Quit,
            Action::Execute { commands } => ActionModel::Execute {
                commands: command_models(commands@),
            },
            Action::Activate { index, commands } => ActionModel::Activate {
                index,
                commands: command_models(commands@),
            },
            Action::Report { error } => ActionModel::Report { error },
        }
    }
}

/// The row below `selected` in a list of `n` rows, around the end; the first
/// row where none is selected.
pub open spec fn next_selection(selected: Option<usize>, n: nat) -> usize {
    match selected {
        Some(i) => if n == 0 || i >= n - 1 {
            0
        } else {
            (i + 1) as usize
        },
        None => 0,
    }
}

/// The row above `selected` in a list of `n` rows, around the beginning; the
/// first row where none is selected.
pub open spec fn previous_selection(selected: Option<usize>, n: nat) -> usize {
    match selected {
        Some(i) => if i == 0 {
            last_row(n)
        } else {
            (i - 1) as usize
        },
        None => 0,
    }
}

/// The last row of a list of `n` rows; row 0 for an empty list.
pub open spec fn last_row(n: nat) -> usize {
    if n == 0 {
        0
    } else {
        (n - 1) as usize
    }
}

/// What [`App::new`] keeps of the configurations it is given: each in turn,
/// but for those whose name an earlier one has.
pub open spec fn loaded(configurations: Seq<ConfigurationModel>) -> StoreModel
    decreases configurations.len(),
{
    if configurations.len() == 0 {
        StoreModel { configurations: Seq::empty(), active: None }
    } else {
        let before = loaded(configurations.drop_last());
        if before.contains_name(configurations.last().name) {
            before
        } else {
            before.added(configurations.last())
        }
    }
}

/// The mathematical value of an [`App`].
pub struct AppModel {
    pub store: StoreModel,
    pub selected: Option<usize>,
    pub input_mode: InputMode,
    pub focus: Focus,
    pub search_query: Seq<char>,
    pub filtered_configs: Seq<usize>,
    pub creation_state: Option<WizardModel>,
}

impl AppModel {
    /// The store is well formed, a wizard exists exactly in `Creating` mode
    /// and is well formed, and the visible rows are those that the query
    /// leaves of the store.
    pub open spec fn wf(self) -> bool {
        &&& self.store.wf()
        &&& (self.input_mode == InputMode::Creating) == self.creation_state.is_some()
        &&& self.creation_state matches Some(w) ==> w.wf()
        &&& self.filtered_configs == visible(
            names_of(self.store.configurations),
            self.search_query,
        )
    }

    /// The state right after start: the given store, nothing selected, every
    /// entry visible.
    pub open spec fn initial(store: StoreModel) -> AppModel {
        AppModel {
            store,
            selected: None,
            input_mode: InputMode::Normal,
            focus: Focus::ConfigList,
            search_query: Seq::empty(),
            filtered_configs: visible(names_of(store.configurations), Seq::empty()),
            creation_state: None,
        }
    }

    /// The store index of the highlighted row, if a visible row is selected.
    pub open spec fn highlighted(self) -> Option<usize> {
        match self.selected {
            Some(s) => if s < self.filtered_configs.len() {
                Some(self.filtered_configs[s as int])
            } else {
                None
            },
            None => None,
        }
    }

    /// The state with another query, the visible rows recomputed.
    pub open spec fn searching(self, query: Seq<char>) -> AppModel {
        AppModel {
            search_query: query,
            filtered_configs: visible(names_of(self.store.configurations), query),
            ..self
        }
    }

    /// The state with another store, the visible rows recomputed.
    pub open spec fn holding(self, store: StoreModel) -> AppModel {
        AppModel {
            store,
            filtered_configs: visible(names_of(store.configurations), self.search_query),
            ..self
        }
    }

    /// The state back in `Normal` mode without a wizard.
    pub open spec fn browsing(self) -> AppModel {
        AppModel { input_mode: InputMode::Normal, creation_state: None, ..self }
    }

    /// Activation of the highlighted entry: whatever is active is
    /// deactivated, and the commands run before the entry is marked.
    pub open spec fn select_step(self) -> (AppModel, ActionModel) {
        match self.highlighted() {
            Some(index) => (
                AppModel { store: self.store.deactivated(), ..self },
                ActionModel::Activate {
                    index,
                    commands: self.store.activation_commands(index as int),
                },
            ),
            None => (self, ActionModel::Nothing),
        }
    }

    /// Deletion of the highlighted entry. A selection that has fallen off the
    /// end of the list moves to the last row.
    pub open spec fn delete_step(self) -> (AppModel, ActionModel) {
        match self.highlighted() {
            Some(index) => {
                let kept = self.holding(self.store.removed(index as int));
                let row = self.selected.unwrap();
                (
                    AppModel {
                        selected: if row >= kept.filtered_configs.len() {
                            Some(last_row(kept.filtered_configs.len()))
                        } else {
                            Some(row)
                        },
                        ..kept
                    },
                    ActionModel::Execute {
                        commands: self.store.deletion_commands(index as int),
                    },
                )
            },
            None => (self, ActionModel::Nothing),
        }
    }

    /// Confirmation of the wizard: the configuration is created unless its
    /// name is taken; either way the wizard ends.
    pub open spec fn create_step(self, wizard: WizardModel) -> (AppModel, ActionModel) {
        let configuration = wizard.configuration();
        if self.store.contains_name(configuration.name) {
            (self.browsing(), ActionModel::Report { error: Error::DuplicateName })
        } else {
            (
                self.holding(self.store.added(configuration)).browsing(),
                ActionModel::Execute { commands: creation_commands(configuration) },
            )
        }
    }

    /// A key in `Normal` mode.
    pub open spec fn normal_step(self, key: Key) -> (AppModel, ActionModel) {
        match key {
            Key::Char(c) => if c == 'q' {
                (self, ActionModel::Quit)
            } else if c == 'e' {
                (AppModel { input_mode: InputMode::Editing, ..self }, ActionModel::Nothing)
            } else if c == 'c' {
                (
                    AppModel {
                        input_mode: InputMode::Creating,
                        creation_state: Some(WizardModel::initial()),
                        ..self
                    },
                    ActionModel::Nothing,
                )
            } else if c == 'x' {
                (
                    AppModel { store: self.store.deactivated(), ..self },
                    ActionModel::Execute { commands: deactivation_commands() },
                )
            } else if c == '/' {
                (
                    AppModel { input_mode: InputMode::Editing, ..self.searching(Seq::empty()) },
                    ActionModel::Nothing,
                )
            } else {
                (self, ActionModel::Nothing)
            },
            Key::Down => (
                AppModel {
                    selected: Some(next_selection(self.selected, self.filtered_configs.len())),
                    ..self
                },
                ActionModel::Nothing,
            ),
            Key::Up => (
                AppModel {
                    selected: Some(
                        previous_selection(self.selected, self.filtered_configs.len()),
                    ),
                    ..self
                },
                ActionModel::Nothing,
            ),
            Key::Enter => self.select_step(),
            Key::Delete => self.delete_step(),
            Key::Tab => (AppModel { focus: self.focus.following(), ..self }, ActionModel::Nothing),
            _ => (self, ActionModel::Nothing),
        }
    }

    /// A key in `Editing` mode. Every change of the query recomputes the
    /// visible rows; cancelling clears the query.
    pub open spec fn editing_step(self, key: Key) -> (AppModel, ActionModel) {
        match key {
            Key::Enter => (
                AppModel { input_mode: InputMode::Normal, ..self },
                ActionModel::Nothing,
            ),
            Key::Char(c) => (self.searching(self.search_query.push(c)), ActionModel::Nothing),
            Key::Backspace => (
                self.searching(crate::wizard::without_last(self.search_query)),
                ActionModel::Nothing,
            ),
            Key::Esc => (
                AppModel { input_mode: InputMode::Normal, ..self.searching(Seq::empty()) },
                ActionModel::Nothing,
            ),
            _ => (self, ActionModel::Nothing),
        }
    }

    /// A key in `Creating` mode, with the wizard that the mode owns.
    pub open spec fn creating_step(self, key: Key) -> (AppModel, ActionModel) {
        match self.creation_state {
            Some(wizard) => match key {
                Key::Esc => (self.browsing(), ActionModel::Nothing),
                Key::Down => (
                    AppModel { creation_state: Some(wizard.advanced()), ..self },
                    ActionModel::Nothing,
                ),
                Key::Up => (
                    AppModel { creation_state: Some(wizard.retreated()), ..self },
                    ActionModel::Nothing,
                ),
                Key::Enter => if wizard.current_field == CreationField::Confirm {
                    self.create_step(wizard)
                } else {
                    (
                        AppModel { creation_state: Some(wizard.entered()), ..self },
                        ActionModel::Nothing,
                    )
                },
                Key::Char(c) => (
                    AppModel { creation_state: Some(wizard.typed(c)), ..self },
                    ActionModel::Nothing,
                ),
                Key::Backspace => (
                    AppModel { creation_state: Some(wizard.erased()), ..self },
                    ActionModel::Nothing,
                ),
                _ => (self, ActionModel::Nothing),
            },
            None => (self, ActionModel::Nothing),
        }
    }

    /// A key: it goes to the handler of the current mode and to no other.
    pub open spec fn step(self, key: Key) -> (AppModel, ActionModel) {
        match self.input_mode {
            InputMode::Normal => self.normal_step(key),
            InputMode::Editing => self.editing_step(key),
            InputMode::Creating => self.creating_step(key),
        }
    }
}

/// The state of the terminal interface.
#[derive(Debug)]
pub struct App {
    store: Store,
    config_list_state: ListState,
    input_mode: InputMode,
    focus: Focus,
    search_query: String,
    filtered_configs: Vec<usize>,
    creation_state: Option<CreationState>,
}

impl View for App {
    type V = AppModel;

    closed spec fn view(&self) -> AppModel {
        AppModel {
            store: self.store@,
            selected: selected_row(self.config_list_state),
            input_mode: self.input_mode,
            focus: self.focus,
            search_query: self.search_query@,
            filtered_configs: self.filtered_configs@,
            creation_state: match self.creation_state {
                Some(w) => Some(w@),
                None => None,
            },
        }
    }
}

impl App {
    /// The invariant of the application state: see [`AppModel::wf`].
    pub open spec fn wf(&self) -> bool {
        self@.wf()
    }

    /// The interface over the given configurations, in their order. A
    /// configuration whose name an earlier one has is left out.
    pub fn new(configurations: Vec<Configuration>) -> (app: App)
        ensures
            app.wf(),
            app@ == AppModel::initial(loaded(configuration_models(configurations@))),
    {
        let ghost models = configuration_models(configurations@);
        let mut store = Store::new();
        let mut i: usize = 0;
        while i < configurations.len()
            invariant
                i <= configurations.len(),
                models == configuration_models(configurations@),
                store.wf(),
                store@ == loaded(models.take(i as int)),
            decreases configurations.len() - i,
        {
            proof {
                assert(models.take(i + 1).drop_last() =~= models.take(i as int));
                assert(models.take(i + 1).last() == configurations@[i as int]@);
            }
            let _ = store.add(configurations[i].clone());
            i = i + 1;
        }
        proof {
            assert(models.take(configurations@.len() as int) =~= models);
        }
        App::over(store)
    }

    /// The interface over a store: `Normal` mode, nothing selected, no query,
    /// every entry visible.
    pub fn over(store: Store) -> (app: App)
        requires
            store.wf(),
        ensures
            app.wf(),
            app@ == AppModel::initial(store@),
    {
        let search_query = String::new();
        let filtered_configs = visible_indices(&store, search_query.as_str());
        App {
            store,
            config_list_state: fresh_list_state(),
            input_mode: InputMode::Normal,
            focus: Focus::ConfigList,
            search_query,
            filtered_configs,
            creation_state: None,
        }
    }

    /// The store.
    pub fn store(&self) -> (r: &Store)
        ensures
            r@ == self@.store,
    {
        &self.store
    }

    /// The selected row of the visible list.
    pub fn selected(&self) -> (r: Option<usize>)
        ensures
            r == self@.selected,
    {
        self.config_list_state.selected()
    }

    /// The selection state for the list widget that shows the visible rows.
    pub fn config_list_state(&self) -> (r: &ListState)
        ensures
            selected_row(*r) == self@.selected,
    {
        &self.config_list_state
    }

    /// The current mode.
    pub fn input_mode(&self) -> (r: InputMode)
        ensures
            r == self@.input_mode,
    {
        self.input_mode
    }

    /// The focused pane.
    pub fn focus(&self) -> (r: Focus)
        ensures
            r == self@.focus,
    {
        self.focus
    }

    /// The search query.
    pub fn search_query(&self) -> (r: &str)
        ensures
            r@ == self@.search_query,
    {
        self.search_query.as_str()
    }

    /// The store indices of the visible rows, in display order.
    pub fn filtered_configs(&self) -> (r: &Vec<usize>)
        ensures
            r@ == self@.filtered_configs,
    {
        &self.filtered_configs
    }

    /// The wizard, while one runs.
    pub fn creation_state(&self) -> (r: Option<&CreationState>)
        ensures
            r.is_some() == self@.creation_state.is_some(),
            r matches Some(w) ==> Some(w@) == self@.creation_state,
    {
        self.creation_state.as_ref()
    }

    /// The store index of the highlighted row, if a visible row is selected.
    pub fn highlighted(&self) -> (r: Option<usize>)
        requires
            self.wf(),
        ensures
            r == self@.highlighted(),
            r matches Some(index) ==> index < self@.store.configurations.len(),
    {
        match self.config_list_state.selected() {
            Some(s) => if s < self.filtered_configs.len() {
                proof {
                    lemma_visible_exact(
                        names_of(self@.store.configurations),
                        self@.search_query,
                    );
                }
                Some(self.filtered_configs[s])
            } else {
                None
            },
            None => None,
        }
    }

    /// Recomputes the visible rows from the store and the query.
    fn filter_configurations(&mut self)
        ensures
            final(self)@ == old(self)@.searching(old(self)@.search_query),
    {
        self.filtered_configs = visible_indices(&self.store, self.search_query.as_str());
    }

    /// Moves the selection one row down, around the end.
    fn next(&mut self)
        ensures
            final(self)@ == (AppModel {
                selected: Some(next_selection(old(self)@.selected, old(self)@.filtered_configs.len())),
                ..old(self)@
            }),
    {
        let n = self.filtered_configs.len();
        let i: usize = match self.config_list_state.selected() {
            Some(i) => if n == 0 || i >= n - 1 {
                0
            } else {
                i + 1
            },
            None => 0,
        };
        self.config_list_state.select(Some(i));
    }

    /// Moves the selection one row up, around the beginning.
    fn previous(&mut self)
        ensures
            final(self)@ == (AppModel {
                selected: Some(
                    previous_selection(old(self)@.selected, old(self)@.filtered_configs.len()),
                ),
                ..old(self)@
            }),
    {
        let n = self.filtered_configs.len();
        let i: usize = match self.config_list_state.selected() {
            Some(i) => if i == 0 {
                if n == 0 {
                    0
                } else {
                    n - 1
                }
            } else {
                i - 1
            },
            None => 0,
        };
        self.config_list_state.select(Some(i));
    }

    /// Moves the focus to the next pane.
    fn cycle_focus(&mut self)
        ensures
            final(self)@ == (AppModel { focus: old(self)@.focus.following(), ..old(self)@ }),
    {
        self.focus = match self.focus {
            Focus::ConfigList => Focus::ProxyList,
            Focus::ProxyList => Focus::RulesList,
            Focus::RulesList => Focus::ConfigList,
        };
    }

    /// Deactivates whatever is active.
    fn deactivate_proxy(&mut self) -> (action: Action)
        requires
            old(self).wf(),
        ensures
            final(self).wf(),
            final(self)@ == (AppModel { store: old(self)@.store.deactivated(), ..old(self)@ }),
            action@ == (ActionModel::Execute { commands: deactivation_commands() }),
    {
        let commands = self.store.deactivate();
        Action::Execute { commands }
    }

    /// Begins the activation of the highlighted entry.
    fn select_highlighted(&mut self) -> (action: Action)
        requires
            old(self).wf(),
        ensures
            final(self).wf(),
            (final(self)@, action@) == old(self)@.select_step(),
    {
        match self.highlighted() {
            Some(index) => match self.store.activate(index) {
                Ok(commands) => Action::Activate { index, commands },
                Err(error) => Action::Report { error },
            },
            None => Action::Nothing,
        }
    }

    /// Deletes the highlighted entry.
    fn delete_selected(&mut self) -> (action: Action)
        requires
            old(self).wf(),
        ensures
            final(self).wf(),
            (final(self)@, action@) == old(self)@.delete_step(),
    {
        match self.highlighted() {
            Some(index) => match self.store.delete(index) {
                Ok(commands) => {
                    self.filter_configurations();
                    let row = match self.config_list_state.selected() {
                        Some(row) => row,
                        None => 0,
                    };
                    let n = self.filtered_configs.len();
                    if row >= n {
                        self.config_list_state.select(
                            Some(
                                if n == 0 {
                                    0
                                } else {
                                    n - 1
                                },
                            ),
                        );
                    }
                    Action::Execute { commands }
                },
                Err(error) => Action::Report { error },
            },
            None => Action::Nothing,
        }
    }

    /// Creates the configuration that a confirmed wizard describes, once the
    /// wizard has been taken out of the state.
    fn create_configuration(&mut self, wizard: CreationState) -> (action: Action)
        requires
            old(self).wf(),
            old(self)@.input_mode == InputMode::Normal,
            wizard.wf(),
        ensures
            final(self).wf(),
            (final(self)@, action@) == old(self)@.create_step(wizard@),
    {
        let configuration = wizard.build();
        let Configuration { name, proxies, rules } = configuration;
        match self.store.create(name, proxies, rules) {
            Ok((_, commands)) => {
                self.filter_configurations();
                Action::Execute { commands }
            },
            Err(error) => Action::Report { error },
        }
    }

    /// A key in `Normal` mode.
    fn handle_normal(&mut self, key: Key) -> (action: Action)
        requires
            old(self).wf(),
            old(self)@.input_mode == InputMode::Normal,
        ensures
            final(self).wf(),
            (final(self)@, action@) == old(self)@.normal_step(key),
    {
        match key {
            Key::Char(c) => {
                if c == 'q' {
                    Action::Quit
                } else if c == 'e' {
                    self.input_mode = InputMode::Editing;
                    Action::Nothing
                } else if c == 'c' {
                    self.input_mode = InputMode::Creating;
                    self.creation_state = Some(CreationState::new());
                    Action::Nothing
                } else if c == 'x' {
                    self.deactivate_proxy()
                } else if c == '/' {
                    self.search_query = String::new();
                    self.input_mode = InputMode::Editing;
                    self.filter_configurations();
                    Action::Nothing
                } else {
                    Action::Nothing
                }
            },
            Key::Down => {
                self.next();
                Action::Nothing
            },
            Key::Up => {
                self.previous();
                Action::Nothing
            },
            Key::Enter => self.select_highlighted(),
            Key::Delete => self.delete_selected(),
            Key::Tab => {
                self.cycle_focus();
                Action::Nothing
            },
            _ => Action::Nothing,
        }
    }

    /// A key in `Editing` mode.
    fn handle_editing(&mut self, key: Key) -> (action: Action)
        requires
            old(self).wf(),
            old(self)@.input_mode == InputMode::Editing,
        ensures
            final(self).wf(),
            (final(self)@, action@) == old(self)@.editing_step(key),
    {
        match key {
            Key::Enter => {
                self.input_mode = InputMode::Normal;
            },
            Key::Char(c) => {
                self.search_query.push(c);
                self.filter_configurations();
            },
            Key::Backspace => {
                self.search_query.pop();
                self.filter_configurations();
            },
            Key::Esc => {
                self.input_mode = InputMode::Normal;
                self.search_query = String::new();
                self.filter_configurations();
            },
            _ => {},
        }
        Action::Nothing
    }

    /// A key in `Creating` mode.
    fn handle_creating(&mut self, key: Key) -> (action: Action)
        requires
            old(self).wf(),
            old(self)@.input_mode == InputMode::Creating,
        ensures
            final(self).wf(),
            (final(self)@, action@) == old(self)@.creating_step(key),
    {
        match self.creation_state.take() {
            Some(mut wizard) => match key {
                Key::Esc => {
                    self.input_mode = InputMode::Normal;
                    Action::Nothing
                },
                Key::Down => {
                    wizard.next_field();
                    self.creation_state = Some(wizard);
                    Action::Nothing
                },
                Key::Up => {
                    wizard.previous_field();
                    self.creation_state = Some(wizard);
                    Action::Nothing
                },
                Key::Enter => {
                    if wizard.enter() {
                        self.input_mode = InputMode::Normal;
                        self.create_configuration(wizard)
                    } else {
                        self.creation_state = Some(wizard);
                        Action::Nothing
                    }
                },
                Key::Char(c) => {
                    wizard.type_char(c);
                    self.creation_state = Some(wizard);
                    Action::Nothing
                },
                Key::Backspace => {
                    wizard.backspace();
                    self.creation_state = Some(wizard);
                    Action::Nothing
                },
                _ => {
                    self.creation_state = Some(wizard);
                    Action::Nothing
                },
            },
            None => Action::Nothing,
        }
    }

    /// Handles one key press: the transition of [`AppModel::step`].
    pub fn handle_key(&mut self, key: Key) -> (action: Action)
        requires
            old(self).wf(),
        ensures
            final(self).wf(),
            (final(self)@, action@) == old(self)@.step(key),
    {
        match self.input_mode {
            InputMode::Normal => self.handle_normal(key),
            InputMode::Editing => self.handle_editing(key),
            InputMode::Creating => self.handle_creating(key),
        }
    }

    /// Ends the activation that an [`Action::Activate`] began.
    ///
    /// Fails with `NotFound` exactly when `index` is out of range, and with
    /// `ExternalProcessError` exactly when it is in range and `succeeded` is
    /// false; the state is then left as it was, so nothing is marked active
    /// that does not run. Otherwise the entry at `index` becomes the active
    /// one.
    pub fn activation_finished(&mut self, index: usize, succeeded: bool) -> (r: Result<
        (),
        Error,
    >)
        requires
            old(self).wf(),
        ensures
            final(self).wf(),
            index >= old(self)@.store.configurations.len() ==> r == Err::<(), Error>(
                Error::NotFound,
            ) && final(self)@ == old(self)@,
            index < old(self)@.store.configurations.len() && !succeeded ==> r == Err::<(), Error>(
                Error::ExternalProcessError,
            ) && final(self)@ == old(self)@,
            index < old(self)@.store.configurations.len() && succeeded ==> r.is_ok()
                && final(self)@ == (AppModel {
                store: old(self)@.store.activated(index),
                ..old(self)@
            }),
    {
        self.store.mark_active(index, succeeded)
    }
}

/// Each mode hands over only as the interface allows: `Normal` to `Editing`
/// or `Creating`, and either of these back to `Normal`.
pub proof fn lemma_mode_transitions(app: AppModel, key: Key)
    requires
        app.wf(),
    ensures
        app.input_mode == InputMode::Editing ==> app.step(key).0.input_mode != InputMode::Creating,
        app.input_mode == InputMode::Creating ==> app.step(key).0.input_mode != InputMode::Editing,
        app.step(key).0.input_mode == InputMode::Creating <==> app.step(
            key,
        ).0.creation_state.is_some(),
        app.input_mode != InputMode::Normal ==> app.step(key).1 != ActionModel::Quit,
{
}

/// Cancelling a search clears the query and brings every entry back, in
/// store order.
pub proof fn lemma_cancel_search_restores_all(app: AppModel)
    requires
        app.wf(),
        app.input_mode == InputMode::Editing,
    ensures
        app.step(Key::Esc).0.input_mode == InputMode::Normal,
        app.step(Key::Esc).0.search_query == Seq::<char>::empty(),
        app.step(Key::Esc).0.filtered_configs == all_indices(app.store.configurations.len()),
        app.step(Key::Esc).0.store == app.store,
        app.step(Key::Esc).1 == ActionModel::Nothing,
{
    lemma_visible_empty_query(names_of(app.store.configurations), Seq::<char>::empty());
}

/// Confirming a search keeps the query and its filter.
pub proof fn lemma_confirm_search_keeps_filter(app: AppModel)
    requires
        app.wf(),
        app.input_mode == InputMode::Editing,
    ensures
        app.step(Key::Enter).0 == (AppModel { input_mode: InputMode::Normal, ..app }),
        app.step(Key::Enter).0.wf(),
{
}

/// Cancelling the wizard discards it without a trace: the store, the query
/// and the visible rows stay, nothing is asked of the outside.
pub proof fn lemma_cancel_wizard_leaves_store(app: AppModel)
    requires
        app.wf(),
        app.input_mode == InputMode::Creating,
    ensures
        app.step(Key::Esc) == (app.browsing(), ActionModel::Nothing),
        app.step(Key::Esc).0.store == app.store,
        app.step(Key::Esc).0.creation_state.is_none(),
{
}

/// While the wizard runs, the store changes only when the wizard is
/// confirmed on its last field: every other key leaves the store as it is and
/// asks nothing of the outside.
pub proof fn lemma_wizard_owns_its_draft(app: AppModel, key: Key)
    requires
        app.wf(),
        app.input_mode == InputMode::Creating,
        !(key == Key::Enter && app.creation_state.unwrap().current_field
            == CreationField::Confirm),
    ensures
        app.step(key).0.store == app.store,
        app.step(key).0.filtered_configs == app.filtered_configs,
        app.step(key).1 == ActionModel::Nothing,
{
}

/// Confirming the wizard under a name that is taken reports `DuplicateName`
/// and leaves the store as it was.
pub proof fn lemma_duplicate_name_rejected(app: AppModel)
    requires
        app.wf(),
        app.input_mode == InputMode::Creating,
        app.creation_state.unwrap().current_field == CreationField::Confirm,
        app.store.contains_name(app.creation_state.unwrap().name),
    ensures
        app.step(Key::Enter).0.store == app.store,
        app.step(Key::Enter).1 == (ActionModel::Report { error: Error::DuplicateName }),
{
}

/// Deactivating twice is deactivating once: the second key changes nothing
/// and asks for the same two commands.
pub proof fn lemma_deactivate_twice(app: AppModel)
    requires
        app.wf(),
        app.input_mode == InputMode::Normal,
    ensures
        app.step(Key::Char('x')).0.step(Key::Char('x')) == app.step(Key::Char('x')),
        app.store.active.is_none() ==> app.step(Key::Char('x')).0 == app,
{
}

/// Deleting the highlighted entry while it is active asks for its
/// deactivation before its files are removed, and leaves nothing active and
/// no entry of its name.
pub proof fn lemma_delete_highlighted_active(app: AppModel)
    requires
        app.wf(),
        app.input_mode == InputMode::Normal,
        app.highlighted().is_some(),
        app.store.is_active(app.highlighted().unwrap() as int),
    ensures
        app.step(Key::Delete).0.store.active.is_none(),
        !app.step(Key::Delete).0.store.contains_name(
            app.store.configurations[app.highlighted().unwrap() as int].name,
        ),
        app.step(Key::Delete).1 == (ActionModel::Execute {
            commands: seq![
                CommandModel::StopRedirector,
                CommandModel::FlushRules,
                CommandModel::RemoveFiles {
                    name: app.store.configurations[app.highlighted().unwrap() as int].name,
                },
            ],
        }),
{
    lemma_delete_active(app.store, app.highlighted().unwrap() as int);
}

/// Every key leaves the state well formed: names stay unique, at most one
/// entry is marked active and it is in the store, a wizard exists exactly in
/// `Creating` mode, and the visible rows are those that the query leaves.
pub proof fn lemma_step_keeps_wf(app: AppModel, key: Key)
    requires
        app.wf(),
        app.store.configurations.len() < usize::MAX,
    ensures
        app.step(key).0.wf(),
{
    match app.input_mode {
        InputMode::Normal => {
            if key == Key::Delete && app.highlighted().is_some() {
                lemma_visible_exact(names_of(app.store.configurations), app.search_query);
                lemma_removed_wf(app.store, app.highlighted().unwrap() as int);
            }
            if let Key::Char(c) = key {
                lemma_wizard_steps_keep_wf(WizardModel::initial(), c);
            }
        },
        InputMode::Editing => {},
        InputMode::Creating => {
            let wizard = app.creation_state.unwrap();
            let c = match key {
                Key::Char(c) => c,
                _ => ' ',
            };
            lemma_wizard_steps_keep_wf(wizard, c);
            if key == Key::Enter && wizard.current_field == CreationField::Confirm
                && !app.store.contains_name(wizard.configuration().name) {
                lemma_added_wf(app.store, wizard.configuration());
            }
        },
    }
}

/// A successful activation marks exactly the highlighted entry: after the
/// key and the report of success, that entry is the active one and no other.
pub proof fn lemma_activation_marks_highlighted(app: AppModel)
    requires
        app.wf(),
        app.input_mode == InputMode::Normal,
        app.highlighted().is_some(),
    ensures
        app.step(Key::Enter).0.store.active.is_none(),
        app.step(Key::Enter).1 == (ActionModel::Activate {
            index: app.highlighted().unwrap(),
            commands: app.store.activation_commands(app.highlighted().unwrap() as int),
        }),
        app.step(Key::Enter).0.store.activated(app.highlighted().unwrap()).wf(),
        forall|i: int|
            app.step(Key::Enter).0.store.activated(app.highlighted().unwrap()).is_active(i) <==> i
                == app.highlighted().unwrap(),
{
    lemma_visible_exact(names_of(app.store.configurations), app.search_query);
}

} // verus!
