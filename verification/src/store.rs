//! The configuration store with its single active slot, and the lifecycle of
//! a configuration: create, activate, deactivate, delete.
//!
//! The store never runs anything. Each lifecycle operation changes the store
//! and returns the ordered [`Command`]s that the caller carries out against
//! the redirector, the NAT table and the filesystem.

use crate::configuration::{
    configuration_models, rule_models, Configuration, ConfigurationModel, IptablesRule, Proxy,
    RuleModel,
};
use crate::proxy_controller::chain_text;
use crate::error::Error;
use vstd::prelude::*;
use vstd::string::*;

verus! {

/// One piece of outside work.
#[derive(Debug, PartialEq, Eq)]
pub enum Command {
    /// Stop the redirector process; harmless when none runs.
    StopRedirector,
    /// Remove every installed NAT rule; harmless when none is installed.
    FlushRules,
    /// Start the redirector on the chain file of the named configuration.
    StartRedirector { name: String },
    /// Install one NAT rule.
    InstallRule { rule: IptablesRule },
    /// Write the chain file of the named configuration.
    WriteChainFile { name: String, text: String },
    /// Write the persisted record of a configuration.
    WriteRecord { configuration: Configuration },
    /// Delete the persisted record and the chain file of the named configuration.
    RemoveFiles { name: String },
}

/// The mathematical value of a [`Command`].
pub enum CommandModel {
    StopRedirector,
    FlushRules,
    StartRedirector { name: Seq<char> },
    InstallRule { rule: RuleModel },
    WriteChainFile { name: Seq<char>, text: Seq<char> },
    WriteRecord { configuration: ConfigurationModel },
    RemoveFiles { name: Seq<char> },
}

impl View for Command {
    type V = CommandModel;

    open spec fn view(&self) -> CommandModel {
        match *self {
            Command::StopRedirector => CommandModel::StopRedirector,
            Command::FlushRules => CommandModel::FlushRules,
            Command::StartRedirector { name } => CommandModel::StartRedirector { name: name@ },
            Command::InstallRule { rule } => CommandModel::InstallRule { rule: rule@ },
            Command::WriteChainFile { name, text } => CommandModel::WriteChainFile {
                name: name@,
                text: text@,
            },
            Command::WriteRecord { configuration } => CommandModel::WriteRecord {
                configuration: configuration@,
            },
            Command::RemoveFiles { name } => CommandModel::RemoveFiles { name: name@ },
        }
    }
}

/// The values of a list of commands, in list order.
pub open spec fn command_models(commands: Seq<Command>) -> Seq<CommandModel> {
    Seq::new(commands.len(), |i: int| commands[i]@)
}

/// Full deactivation: stop the redirector, then flush the NAT rules.
pub open spec fn deactivation_commands() -> Seq<CommandModel> {
    seq![CommandModel::StopRedirector, CommandModel::FlushRules]
}

/// One install command per rule, in rule order.
pub open spec fn install_commands(rules: Seq<RuleModel>) -> Seq<CommandModel> {
    Seq::new(rules.len(), |i: int| CommandModel::InstallRule { rule: rules[i] })
}

/// Bringing a configuration up: start the redirector on its chain file, then
/// install its rules.
pub open spec fn run_commands(configuration: ConfigurationModel) -> Seq<CommandModel> {
    seq![CommandModel::StartRedirector { name: configuration.name }] + install_commands(
        configuration.rules,
    )
}

/// Persisting a new configuration: write its chain file, install its rules,
/// write its record.
pub open spec fn creation_commands(configuration: ConfigurationModel) -> Seq<CommandModel> {
    seq![
        CommandModel::WriteChainFile {
            name: configuration.name,
            text: chain_text(configuration.proxies),
        },
    ] + install_commands(configuration.rules) + seq![
        CommandModel::WriteRecord { configuration },
    ]
}

/// The mathematical value of a [`Store`]: the configurations in display order
/// and the index of the active one, if any.
pub struct StoreModel {
    pub configurations: Seq<ConfigurationModel>,
    pub active: Option<usize>,
}

/// No two configurations share a name.
pub open spec fn distinct_names(configurations: Seq<ConfigurationModel>) -> bool {
    forall|i: int, j: int|
        0 <= i < j < configurations.len() ==> configurations[i].name != configurations[j].name
}

impl StoreModel {
    /// Names are unique, the active marker, if set, points into the store,
    /// and the entries can be counted by a machine word.
    pub open spec fn wf(self) -> bool {
        &&& self.configurations.len() <= usize::MAX
        &&& distinct_names(self.configurations)
        &&& self.active matches Some(a) ==> a < self.configurations.len()
    }

    /// Some configuration has this name.
    pub open spec fn contains_name(self, name: Seq<char>) -> bool {
        exists|i: int|
            0 <= i < self.configurations.len() && (#[trigger] self.configurations[i]).name == name
    }

    /// The entry at `index` is the active one.
    pub open spec fn is_active(self, index: int) -> bool {
        self.active matches Some(a) && a == index
    }

    /// The store with `configuration` appended; the active marker stays.
    pub open spec fn added(self, configuration: ConfigurationModel) -> StoreModel {
        StoreModel {
            configurations: self.configurations.push(configuration),
            active: self.active,
        }
    }

    /// The store without the entry at `index`. The active marker keeps
    /// denoting the same configuration, and is cleared where that one left.
    pub open spec fn removed(self, index: int) -> StoreModel {
        StoreModel {
            configurations: self.configurations.remove(index),
            active: match self.active {
                Some(a) => if a == index {
                    None
                } else if a > index {
                    Some((a - 1) as usize)
                } else {
                    Some(a)
                },
                None => None,
            },
        }
    }

    /// The store with nothing active.
    pub open spec fn deactivated(self) -> StoreModel {
        StoreModel { configurations: self.configurations, active: None }
    }

    /// The store with the entry at `index` marked active.
    pub open spec fn activated(self, index: usize) -> StoreModel {
        StoreModel { configurations: self.configurations, active: Some(index) }
    }

    /// What activating the entry at `index` asks of the outside: where a
    /// configuration is active, its full deactivation comes first.
    pub open spec fn activation_commands(self, index: int) -> Seq<CommandModel> {
        if self.active.is_some() {
            deactivation_commands() + run_commands(self.configurations[index])
        } else {
            run_commands(self.configurations[index])
        }
    }

    /// What taking the entry at `index` out of the store asks of the outside:
    /// where it is the active one, its full deactivation; else nothing.
    pub open spec fn removal_commands(self, index: int) -> Seq<CommandModel> {
        if self.is_active(index) {
            deactivation_commands()
        } else {
            Seq::empty()
        }
    }

    /// What deleting the entry at `index` asks of the outside: what its
    /// removal asks, then the removal of its persisted files.
    pub open spec fn deletion_commands(self, index: int) -> Seq<CommandModel> {
        self.removal_commands(index) + seq![
            CommandModel::RemoveFiles { name: self.configurations[index].name },
        ]
    }
}

/// One item of a bulk load: a configuration that was read, or the reason why
/// it could not be read.
pub open spec fn item_models(items: Seq<Result<Configuration, Error>>) -> Seq<
    Result<ConfigurationModel, Error>,
> {
    Seq::new(
        items.len(),
        |i: int|
            match items[i] {
                Ok(configuration) => Ok(configuration@),
                Err(error) => Err(error),
            },
    )
}

/// The outcome of a bulk load: the store of the items that were read, in
/// order, and the errors of the others, in order. An item that could not be
/// read contributes its error, an item whose name an earlier one has
/// contributes `DuplicateName`; neither holds up the items after it.
pub open spec fn load_outcome(items: Seq<Result<ConfigurationModel, Error>>) -> (
    StoreModel,
    Seq<Error>,
)
    decreases items.len(),
{
    if items.len() == 0 {
        (StoreModel { configurations: Seq::empty(), active: None }, Seq::empty())
    } else {
        let (store, errors) = load_outcome(items.drop_last());
        match items.last() {
            Ok(configuration) => if store.contains_name(configuration.name) {
                (store, errors.push(Error::DuplicateName))
            } else {
                (store.added(configuration), errors)
            },
            Err(error) => (store, errors.push(error)),
        }
    }
}

/// The in-memory collection of configurations, in display order, together
/// with the marker of the single active one.
#[derive(Debug)]
pub struct Store {
    configurations: Vec<Configuration>,
    active: Option<usize>,
}

impl View for Store {
    type V = StoreModel;

    closed spec fn view(&self) -> StoreModel {
        StoreModel {
            configurations: configuration_models(self.configurations@),
            active: self.active,
        }
    }
}

/// Appends one install command per rule.
fn push_installs(out: &mut Vec<Command>, rules: &Vec<IptablesRule>)
    ensures
        command_models(final(out)@) == command_models(old(out)@) + install_commands(
            rule_models(rules@),
        ),
{
    let mut i: usize = 0;
    while i < rules.len()
        invariant
            i <= rules.len(),
            command_models(out@) == command_models(old(out)@) + install_commands(
                rule_models(rules@).take(i as int),
            ),
        decreases rules.len() - i,
    {
        let ghost before = out@;
        out.push(Command::InstallRule { rule: rules[i].clone() });
        proof {
            assert(command_models(out@) =~= command_models(before).push(
                CommandModel::InstallRule { rule: rules@[i as int]@ },
            ));
            assert(install_commands(rule_models(rules@).take(i + 1)) =~= install_commands(
                rule_models(rules@).take(i as int),
            ).push(CommandModel::InstallRule { rule: rules@[i as int]@ }));
            assert(command_models(out@) =~= command_models(old(out)@) + install_commands(
                rule_models(rules@).take(i + 1),
            ));
        }
        i = i + 1;
    }
    proof {
        assert(rule_models(rules@).take(rules@.len() as int) =~= rule_models(rules@));
        assert(command_models(old(out)@) + install_commands(rule_models(rules@).take(0))
            =~= command_models(old(out)@));
    }
}

impl Configuration {
    /// The commands that bring this configuration up: start the redirector on
    /// its chain file, then install each of its rules in order.
    pub fn run(&self) -> (commands: Vec<Command>)
        ensures
            command_models(commands@) == run_commands(self@),
    {
        let mut out: Vec<Command> = Vec::new();
        out.push(Command::StartRedirector { name: self.name.clone() });
        proof {
            assert(command_models(out@) =~= seq![
                CommandModel::StartRedirector { name: self@.name },
            ]);
        }
        push_installs(&mut out, &self.rules);
        out
    }

    /// The commands that persist this configuration: write its rendered chain
    /// file, install each of its rules, write its record.
    pub fn persist(&self) -> (commands: Vec<Command>)
        ensures
            command_models(commands@) == creation_commands(self@),
    {
        let mut out: Vec<Command> = Vec::new();
        out.push(
            Command::WriteChainFile { name: self.name.clone(), text: self.generate_redsocks_config() },
        );
        proof {
            assert(command_models(out@) =~= seq![
                CommandModel::WriteChainFile {
                    name: self@.name,
                    text: chain_text(self@.proxies),
                },
            ]);
        }
        push_installs(&mut out, &self.rules);
        let ghost before = out@;
        out.push(Command::WriteRecord { configuration: self.clone() });
        proof {
            assert(command_models(out@) =~= command_models(before).push(
                CommandModel::WriteRecord { configuration: self@ },
            ));
            assert(command_models(out@) =~= creation_commands(self@));
        }
        out
    }
}

/// The two commands of a full deactivation.
fn push_deactivation(out: &mut Vec<Command>)
    ensures
        command_models(final(out)@) == command_models(old(out)@) + deactivation_commands(),
{
    out.push(Command::StopRedirector);
    out.push(Command::FlushRules);
    proof {
        assert(command_models(final(out)@) =~= command_models(old(out)@)
            + deactivation_commands());
    }
}

impl Store {
    /// The invariant of the store: see [`StoreModel::wf`].
    pub open spec fn wf(&self) -> bool {
        self@.wf()
    }

    /// An empty store with nothing active.
    pub fn new() -> (store: Store)
        ensures
            store.wf(),
            store@.configurations == Seq::<ConfigurationModel>::empty(),
            store@.active.is_none(),
    {
        let store = Store { configurations: Vec::new(), active: None };
        proof {
            assert(store@.configurations =~= Seq::<ConfigurationModel>::empty());
        }
        store
    }

    /// Builds a store from the items of a bulk load and reports, item by
    /// item, what was left out: see [`load_outcome`].
    pub fn load(items: Vec<Result<Configuration, Error>>) -> (r: (Store, Vec<Error>))
        ensures
            r.0.wf(),
            (r.0@, r.1@) == load_outcome(item_models(items@)),
    {
        let ghost models = item_models(items@);
        let mut store = Store::new();
        let mut errors: Vec<Error> = Vec::new();
        let mut i: usize = 0;
        while i < items.len()
            invariant
                i <= items.len(),
                models == item_models(items@),
                store.wf(),
                (store@, errors@) == load_outcome(models.take(i as int)),
            decreases items.len() - i,
        {
            proof {
                assert(models.take(i + 1).drop_last() =~= models.take(i as int));
                assert(models.take(i + 1).last() == models[i as int]);
            }
            match &items[i] {
                Ok(configuration) => {
                    match store.add(configuration.clone()) {
                        Ok(()) => {},
                        Err(error) => {
                            errors.push(error);
                        },
                    }
                },
                Err(error) => {
                    errors.push(*error);
                },
            }
            i = i + 1;
        }
        proof {
            assert(models.take(items@.len() as int) =~= models);
        }
        (store, errors)
    }

    /// The number of stored configurations.
    pub fn len(&self) -> (n: usize)
        ensures
            n == self@.configurations.len(),
    {
        self.configurations.len()
    }

    /// The configuration at `index`.
    pub fn get(&self, index: usize) -> (r: Option<&Configuration>)
        ensures
            index >= self@.configurations.len() ==> r.is_none(),
            index < self@.configurations.len() ==> r.is_some() && r.unwrap()@
                == self@.configurations[index as int],
    {
        if index < self.configurations.len() {
            Some(&self.configurations[index])
        } else {
            None
        }
    }

    /// The index of the active configuration, if one is active.
    pub fn active(&self) -> (r: Option<usize>)
        ensures
            r == self@.active,
    {
        self.active
    }

    /// The index of the configuration called `name`.
    pub fn find(&self, name: &str) -> (r: Option<usize>)
        ensures
            r.is_some() <==> self@.contains_name(name@),
            r matches Some(i) ==> i < self@.configurations.len() && self@.configurations[i as int].name
                == name@ && forall|j: int|
                0 <= j < i ==> self@.configurations[j].name != name@,
    {
        let key = String::from_str(name);
        let mut i: usize = 0;
        while i < self.configurations.len()
            invariant
                i <= self.configurations.len(),
                key@ == name@,
                forall|j: int| 0 <= j < i ==> self@.configurations[j].name != name@,
            decreases self.configurations.len() - i,
        {
            if self.configurations[i].name == key {
                assert(self@.configurations[i as int].name == name@);
                return Some(i);
            }
            i = i + 1;
        }
        None
    }

    /// Appends `configuration`, unless its name is taken.
    ///
    /// Fails with `DuplicateName`, leaving the store as it was, exactly when
    /// a stored configuration has the same name.
    pub fn add(&mut self, configuration: Configuration) -> (r: Result<(), Error>)
        requires
            old(self).wf(),
        ensures
            final(self).wf(),
            old(self)@.contains_name(configuration@.name) ==> r == Err::<(), Error>(
                Error::DuplicateName,
            ) && final(self)@ == old(self)@,
            !old(self)@.contains_name(configuration@.name) ==> r.is_ok() && final(self)@ == old(
                self,
            )@.added(configuration@),
    {
        if self.find(configuration.name.as_str()).is_some() {
            return Err(Error::DuplicateName);
        }
        self.configurations.push(configuration);
        proof {
            assert(final(self)@.configurations =~= old(self)@.configurations.push(
                configuration@,
            ));
            assert(self.configurations@.len() == self.configurations.len());
            lemma_added_wf(old(self)@, configuration@);
        }
        Ok(())
    }

    /// Takes the entry at `index` out of the store and returns it, with the
    /// commands that this asks for.
    ///
    /// Fails with `NotFound`, leaving the store as it was, exactly when
    /// `index` is out of range. Where the entry is the active one, the
    /// commands are its full deactivation and the active marker is cleared;
    /// else there are no commands and the marker follows its configuration.
    pub fn remove(&mut self, index: usize) -> (r: Result<(Configuration, Vec<Command>), Error>)
        requires
            old(self).wf(),
        ensures
            final(self).wf(),
            index >= old(self)@.configurations.len() ==> r == Err::<
                (Configuration, Vec<Command>),
                Error,
            >(Error::NotFound) && final(self)@ == old(self)@,
            index < old(self)@.configurations.len() ==> r.is_ok() && r.unwrap().0@ == old(
                self,
            )@.configurations[index as int] && command_models(r.unwrap().1@) == old(
                self,
            )@.removal_commands(index as int) && final(self)@ == old(self)@.removed(index as int)
                && !final(self)@.contains_name(old(self)@.configurations[index as int].name),
    {
        if index >= self.configurations.len() {
            return Err(Error::NotFound);
        }
        let mut commands: Vec<Command> = Vec::new();
        proof {
            assert(command_models(commands@) =~= Seq::<CommandModel>::empty());
        }
        let taken = self.configurations.remove(index);
        match self.active {
            Some(a) => {
                if a == index {
                    push_deactivation(&mut commands);
                    self.active = None;
                } else if a > index {
                    self.active = Some(a - 1);
                }
            },
            None => {},
        }
        proof {
            assert(final(self)@.configurations =~= old(self)@.configurations.remove(
                index as int,
            ));
            lemma_removed_wf(old(self)@, index as int);
            assert(command_models(commands@) =~= old(self)@.removal_commands(index as int));
        }
        Ok((taken, commands))
    }

    /// Adds a new configuration made of `name`, `proxies` and `rules`.
    ///
    /// Fails with `DuplicateName`, leaving the store as it was, exactly when
    /// the name is taken. Otherwise the configuration is appended, and it is
    /// returned with the commands that persist it: write the chain file,
    /// install each rule, write the record. A command that fails is for the
    /// caller to report; the configuration stays stored.
    pub fn create(&mut self, name: String, proxies: Vec<Proxy>, rules: Vec<IptablesRule>) -> (r:
        Result<(Configuration, Vec<Command>), Error>)
        requires
            old(self).wf(),
        ensures
            final(self).wf(),
            old(self)@.contains_name(name@) ==> r == Err::<(Configuration, Vec<Command>), Error>(
                Error::DuplicateName,
            ) && final(self)@ == old(self)@,
            !old(self)@.contains_name(name@) ==> r.is_ok() && r.unwrap().0@ == (Configuration {
                name,
                proxies,
                rules,
            })@ && final(self)@ == old(self)@.added(r.unwrap().0@) && command_models(
                r.unwrap().1@,
            ) == creation_commands(r.unwrap().0@),
    {
        let configuration = Configuration::new(name, proxies, rules);
        let commands = configuration.persist();
        let created = configuration.clone();
        match self.add(configuration) {
            Ok(()) => Ok((created, commands)),
            Err(e) => Err(e),
        }
    }

    /// Stops the redirector and flushes the NAT rules, whether or not a
    /// configuration is active, and clears the active marker.
    pub fn deactivate(&mut self) -> (commands: Vec<Command>)
        requires
            old(self).wf(),
        ensures
            final(self).wf(),
            final(self)@ == old(self)@.deactivated(),
            command_models(commands@) == deactivation_commands(),
    {
        let mut out: Vec<Command> = Vec::new();
        push_deactivation(&mut out);
        self.active = None;
        proof {
            assert(command_models(out@) =~= deactivation_commands());
        }
        out
    }

    /// Begins the activation of the entry at `index`.
    ///
    /// Fails with `NotFound`, leaving the store as it was, exactly when
    /// `index` is out of range. Otherwise the commands are returned: where a
    /// configuration is active, its full deactivation; then the start of the
    /// redirector on the entry's chain file and the entry's rules. The active
    /// marker is cleared; [`Store::mark_active`] sets it once the commands
    /// have succeeded.
    pub fn activate(&mut self, index: usize) -> (r: Result<Vec<Command>, Error>)
        requires
            old(self).wf(),
        ensures
            final(self).wf(),
            index >= old(self)@.configurations.len() ==> r == Err::<Vec<Command>, Error>(
                Error::NotFound,
            ) && final(self)@ == old(self)@,
            index < old(self)@.configurations.len() ==> r.is_ok() && final(self)@ == old(
                self,
            )@.deactivated() && command_models(r.unwrap()@) == old(self)@.activation_commands(
                index as int,
            ),
    {
        if index >= self.configurations.len() {
            return Err(Error::NotFound);
        }
        let mut out: Vec<Command> = Vec::new();
        if self.active.is_some() {
            push_deactivation(&mut out);
        }
        self.active = None;
        let mut run = self.configurations[index].run();
        let ghost head = out@;
        let ghost tail = run@;
        out.append(&mut run);
        proof {
            assert(command_models(out@) =~= command_models(head) + command_models(tail));
            assert(command_models(Seq::<Command>::empty()) + command_models(tail)
                =~= command_models(tail));
        }
        Ok(out)
    }

    /// Ends an activation with its outcome.
    ///
    /// Fails with `NotFound` exactly when `index` is out of range, and with
    /// `ExternalProcessError` exactly when it is in range and `succeeded` is
    /// false; the store is then left as it was. Otherwise the entry at
    /// `index` becomes the active one.
    pub fn mark_active(&mut self, index: usize, succeeded: bool) -> (r: Result<(), Error>)
        requires
            old(self).wf(),
        ensures
            final(self).wf(),
            index >= old(self)@.configurations.len() ==> r == Err::<(), Error>(Error::NotFound)
                && final(self)@ == old(self)@,
            index < old(self)@.configurations.len() && !succeeded ==> r == Err::<(), Error>(
                Error::ExternalProcessError,
            ) && final(self)@ == old(self)@,
            index < old(self)@.configurations.len() && succeeded ==> r.is_ok() && final(self)@
                == old(self)@.activated(index),
    {
        if index >= self.configurations.len() {
            return Err(Error::NotFound);
        }
        if !succeeded {
            return Err(Error::ExternalProcessError);
        }
        self.active = Some(index);
        Ok(())
    }

    /// Deletes the entry at `index`.
    ///
    /// Fails with `NotFound`, leaving the store as it was, exactly when
    /// `index` is out of range. Otherwise the entry leaves the store as by
    /// [`Store::remove`] and the commands are returned: where the entry is the
    /// active one, its full deactivation; then the removal of its persisted
    /// files.
    pub fn delete(&mut self, index: usize) -> (r: Result<Vec<Command>, Error>)
        requires
            old(self).wf(),
        ensures
            final(self).wf(),
            index >= old(self)@.configurations.len() ==> r == Err::<Vec<Command>, Error>(
                Error::NotFound,
            ) && final(self)@ == old(self)@,
            index < old(self)@.configurations.len() ==> r.is_ok() && final(self)@ == old(
                self,
            )@.removed(index as int) && command_models(r.unwrap()@) == old(
                self,
            )@.deletion_commands(index as int) && !final(self)@.contains_name(
                old(self)@.configurations[index as int].name,
            ),
    {
        match self.remove(index) {
            Err(e) => Err(e),
            Ok((taken, mut commands)) => {
                let ghost head = commands@;
                commands.push(Command::RemoveFiles { name: taken.name });
                proof {
                    assert(command_models(commands@) =~= command_models(head) + seq![
                        CommandModel::RemoveFiles { name: taken@.name },
                    ]);
                }
                Ok(commands)
            },
        }
    }
}

/// Removing an entry keeps the store well formed, and no entry of the
/// removed one's name is left.
pub proof fn lemma_removed_wf(s: StoreModel, index: int)
    requires
        s.wf(),
        0 <= index < s.configurations.len(),
    ensures
        s.removed(index).wf(),
        !s.removed(index).contains_name(s.configurations[index].name),
        s.is_active(index) ==> s.removed(index).active.is_none(),
{
    let t = s.removed(index);
    assert forall|i: int, j: int| 0 <= i < j < t.configurations.len() implies t.configurations[i].name
        != t.configurations[j].name by {
        let oi = if i < index { i } else { i + 1 };
        let oj = if j < index { j } else { j + 1 };
        assert(t.configurations[i] == s.configurations[oi]);
        assert(t.configurations[j] == s.configurations[oj]);
    }
    assert forall|i: int| 0 <= i < t.configurations.len() implies (#[trigger] t.configurations[i]).name
        != s.configurations[index].name by {
        let oi = if i < index { i } else { i + 1 };
        assert(t.configurations[i] == s.configurations[oi]);
    }
}

/// At most one configuration is active: two entries that are both the active
/// one are the same entry.
pub proof fn lemma_single_active(s: StoreModel, i: int, j: int)
    requires
        s.is_active(i),
        s.is_active(j),
    ensures
        i == j,
        s.wf() ==> 0 <= i < s.configurations.len(),
{
}

/// Activating an entry while a configuration is active stops the redirector
/// and flushes the rules first: the start of the new chain and each of its
/// rule installations come after both, in rule order.
pub proof fn lemma_activation_deactivates_first(s: StoreModel, index: int)
    requires
        s.wf(),
        0 <= index < s.configurations.len(),
        s.active.is_some(),
    ensures
        s.activation_commands(index).len() == 3 + s.configurations[index].rules.len(),
        s.activation_commands(index)[0] == CommandModel::StopRedirector,
        s.activation_commands(index)[1] == CommandModel::FlushRules,
        s.activation_commands(index)[2] == (CommandModel::StartRedirector {
            name: s.configurations[index].name,
        }),
        forall|k: int|
            0 <= k < s.configurations[index].rules.len() ==> s.activation_commands(index)[3 + k]
                == (CommandModel::InstallRule { rule: s.configurations[index].rules[k] }),
        forall|k: int|
            0 <= k < s.activation_commands(index).len() && (s.activation_commands(
                index,
            )[k] is InstallRule || s.activation_commands(index)[k] is StartRedirector) ==> k >= 2,
{
}

/// Activating an entry while nothing is active only starts the redirector and
/// installs the entry's rules.
pub proof fn lemma_activation_from_idle(s: StoreModel, index: int)
    requires
        s.wf(),
        0 <= index < s.configurations.len(),
        s.active.is_none(),
    ensures
        s.activation_commands(index) == run_commands(s.configurations[index]),
{
}

/// Deleting the active entry stops the redirector and flushes the rules
/// before its files are removed; afterwards no entry has its name and nothing
/// is active.
pub proof fn lemma_delete_active(s: StoreModel, index: int)
    requires
        s.wf(),
        s.is_active(index),
    ensures
        s.deletion_commands(index) == seq![
            CommandModel::StopRedirector,
            CommandModel::FlushRules,
            CommandModel::RemoveFiles { name: s.configurations[index].name },
        ],
        s.removed(index).active.is_none(),
        !s.removed(index).contains_name(s.configurations[index].name),
        s.removed(index).configurations.len() == s.configurations.len() - 1,
{
    lemma_removed_wf(s, index);
    assert(s.deletion_commands(index) =~= seq![
        CommandModel::StopRedirector,
        CommandModel::FlushRules,
        CommandModel::RemoveFiles { name: s.configurations[index].name },
    ]);
}

/// Deactivating is idempotent: a second deactivation changes nothing, and
/// with nothing active the first changes nothing either.
pub proof fn lemma_deactivate_idempotent(s: StoreModel)
    ensures
        s.deactivated().deactivated() == s.deactivated(),
        s.active.is_none() ==> s.deactivated() == s,
        s.wf() ==> s.deactivated().wf(),
{
}

/// Adding under a fresh name keeps the store well formed and makes the name
/// present.
pub proof fn lemma_added_wf(s: StoreModel, configuration: ConfigurationModel)
    requires
        s.wf(),
        s.configurations.len() < usize::MAX,
        !s.contains_name(configuration.name),
    ensures
        s.added(configuration).wf(),
        s.added(configuration).contains_name(configuration.name),
{
    let t = s.added(configuration);
    assert forall|i: int, j: int| 0 <= i < j < t.configurations.len() implies t.configurations[i].name
        != t.configurations[j].name by {
        if j == s.configurations.len() {
            assert(s.configurations[i].name != configuration.name);
        }
    }
    assert(t.configurations[s.configurations.len() as int].name == configuration.name);
}

} // verus!
