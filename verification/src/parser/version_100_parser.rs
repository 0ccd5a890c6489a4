use vstd::prelude::*;

use crate::command::{Command, Invocation};
use crate::configuration::{
    Configuration, ConfigurationView, DownloadConfiguration, DownloadConfigurationView,
    PackageConfiguration, PackageConfigurationView, VersionControlConfiguration,
    VersionControlConfigurationView,
};
use crate::file_download::{
    wget_invocations, wget_note_style, FileDownload, FileDownloadFactory, FileDownloadFactoryImpl,
};
use crate::package_manager::{
    winget_invocations, winget_note_style, PackageManager, PackageManagerFactory,
    PackageManagerFactoryImpl,
};
use crate::parser::parser::Parser;
use crate::terminal::{batch_notes, Note, TerminalOutput};
use crate::tool_name::eq_ignore_ascii_case;
use crate::version_control::{
    git_invocations, git_note_style, VersionControlSystem, VersionControlSystemFactory,
    VersionControlSystemFactoryImpl,
};

verus! {

/// Whether a package entry names the supported package manager.
pub open spec fn package_entry_supported(entry: PackageConfigurationView) -> bool {
    eq_ignore_ascii_case(entry.package_manager, "winget"@)
}

/// Whether a version-control entry names the supported version control
/// system.
pub open spec fn version_control_entry_supported(entry: VersionControlConfigurationView) -> bool {
    eq_ignore_ascii_case(entry.vcs, "git"@)
}

/// Whether a download entry names the supported download manager.
pub open spec fn download_entry_supported(entry: DownloadConfigurationView) -> bool {
    eq_ignore_ascii_case(entry.download_manager, "wget"@)
}

/// The runs one package entry performs: one winget run per application, or
/// none at all when the entry's package manager is unsupported.
pub open spec fn package_entry_invocations(entry: PackageConfigurationView) -> Seq<Invocation> {
    if package_entry_supported(entry) {
        winget_invocations(entry.applications, entry.source)
    } else {
        Seq::empty()
    }
}

/// The runs one version-control entry performs: one git run per
/// repository, or none at all when the entry's tool is unsupported.
pub open spec fn version_control_entry_invocations(entry: VersionControlConfigurationView) -> Seq<
    Invocation,
> {
    if version_control_entry_supported(entry) {
        git_invocations(entry.repositories)
    } else {
        Seq::empty()
    }
}

/// The runs one download entry performs: one wget run per file, or none at
/// all when the entry's tool is unsupported.
pub open spec fn download_entry_invocations(entry: DownloadConfigurationView) -> Seq<Invocation> {
    if download_entry_supported(entry) {
        wget_invocations(entry.files, entry.destination_folder)
    } else {
        Seq::empty()
    }
}

/// The notes one package entry produces, given its per-application run
/// outcomes; a skipped entry produces none.
pub open spec fn package_entry_notes(entry: PackageConfigurationView, outcomes: Seq<bool>) -> Seq<
    Note,
> {
    if package_entry_supported(entry) {
        batch_notes(winget_note_style(), entry.applications, outcomes)
    } else {
        Seq::empty()
    }
}

/// The notes one version-control entry produces, given its per-repository
/// run outcomes; a skipped entry produces none.
pub open spec fn version_control_entry_notes(
    entry: VersionControlConfigurationView,
    outcomes: Seq<bool>,
) -> Seq<Note> {
    if version_control_entry_supported(entry) {
        batch_notes(git_note_style(), entry.repositories, outcomes)
    } else {
        Seq::empty()
    }
}

/// The notes one download entry produces, given its per-file run outcomes;
/// a skipped entry produces none.
pub open spec fn download_entry_notes(entry: DownloadConfigurationView, outcomes: Seq<bool>) -> Seq<
    Note,
> {
    if download_entry_supported(entry) {
        batch_notes(wget_note_style(), entry.files, outcomes)
    } else {
        Seq::empty()
    }
}

/// Whether a per-entry outcome sequence has one outcome per item the entry
/// processes — and none for a skipped entry.
pub open spec fn package_entry_outcomes_match(
    entry: PackageConfigurationView,
    outcomes: Seq<bool>,
) -> bool {
    outcomes.len() == if package_entry_supported(entry) {
        entry.applications.len()
    } else {
        0
    }
}

pub open spec fn version_control_entry_outcomes_match(
    entry: VersionControlConfigurationView,
    outcomes: Seq<bool>,
) -> bool {
    outcomes.len() == if version_control_entry_supported(entry) {
        entry.repositories.len()
    } else {
        0
    }
}

pub open spec fn download_entry_outcomes_match(
    entry: DownloadConfigurationView,
    outcomes: Seq<bool>,
) -> bool {
    outcomes.len() == if download_entry_supported(entry) {
        entry.files.len()
    } else {
        0
    }
}

/// The runs a whole packages section performs, entry by entry.
pub open spec fn packages_invocations(entries: Seq<PackageConfigurationView>) -> Seq<Invocation>
    decreases entries.len(),
{
    if entries.len() == 0 {
        Seq::empty()
    } else {
        package_entry_invocations(entries[0]) + packages_invocations(entries.drop_first())
    }
}

/// The runs a whole version-control section performs, entry by entry.
pub open spec fn version_control_invocations(entries: Seq<VersionControlConfigurationView>) -> Seq<
    Invocation,
>
    decreases entries.len(),
{
    if entries.len() == 0 {
        Seq::empty()
    } else {
        version_control_entry_invocations(entries[0]) + version_control_invocations(
            entries.drop_first(),
        )
    }
}

/// The runs a whole downloads section performs, entry by entry.
pub open spec fn downloads_invocations(entries: Seq<DownloadConfigurationView>) -> Seq<Invocation>
    decreases entries.len(),
{
    if entries.len() == 0 {
        Seq::empty()
    } else {
        download_entry_invocations(entries[0]) + downloads_invocations(entries.drop_first())
    }
}

/// The notes a whole packages section produces, entry by entry, given one
/// outcome sequence per entry.
pub open spec fn packages_notes(
    entries: Seq<PackageConfigurationView>,
    outcomes: Seq<Seq<bool>>,
) -> Seq<Note>
    decreases entries.len(),
{
    if entries.len() == 0 {
        Seq::empty()
    } else {
        package_entry_notes(entries[0], outcomes[0]) + packages_notes(
            entries.drop_first(),
            outcomes.drop_first(),
        )
    }
}

pub open spec fn version_control_notes(
    entries: Seq<VersionControlConfigurationView>,
    outcomes: Seq<Seq<bool>>,
) -> Seq<Note>
    decreases entries.len(),
{
    if entries.len() == 0 {
        Seq::empty()
    } else {
        version_control_entry_notes(entries[0], outcomes[0]) + version_control_notes(
            entries.drop_first(),
            outcomes.drop_first(),
        )
    }
}

pub open spec fn downloads_notes(
    entries: Seq<DownloadConfigurationView>,
    outcomes: Seq<Seq<bool>>,
) -> Seq<Note>
    decreases entries.len(),
{
    if entries.len() == 0 {
        Seq::empty()
    } else {
        download_entry_notes(entries[0], outcomes[0]) + downloads_notes(
            entries.drop_first(),
            outcomes.drop_first(),
        )
    }
}

pub open spec fn packages_outcomes_match(
    entries: Seq<PackageConfigurationView>,
    outcomes: Seq<Seq<bool>>,
) -> bool {
    outcomes.len() == entries.len() && forall|j: int|
        0 <= j < entries.len() ==> package_entry_outcomes_match(entries[j], #[trigger] outcomes[j])
}

pub open spec fn version_control_outcomes_match(
    entries: Seq<VersionControlConfigurationView>,
    outcomes: Seq<Seq<bool>>,
) -> bool {
    outcomes.len() == entries.len() && forall|j: int|
        0 <= j < entries.len() ==> version_control_entry_outcomes_match(
            entries[j],
            #[trigger] outcomes[j],
        )
}

pub open spec fn downloads_outcomes_match(
    entries: Seq<DownloadConfigurationView>,
    outcomes: Seq<Seq<bool>>,
) -> bool {
    outcomes.len() == entries.len() && forall|j: int|
        0 <= j < entries.len() ==> download_entry_outcomes_match(entries[j], #[trigger] outcomes[j])
}

/// The packages section's entries, or no entries when the section is
/// absent.
pub open spec fn packages_entries(configuration: ConfigurationView) -> Seq<
    PackageConfigurationView,
> {
    match configuration.packages {
        Some(entries) => entries,
        None => Seq::empty(),
    }
}

pub open spec fn version_control_entries(configuration: ConfigurationView) -> Seq<
    VersionControlConfigurationView,
> {
    match configuration.version_control {
        Some(entries) => entries,
        None => Seq::empty(),
    }
}

pub open spec fn download_entries(configuration: ConfigurationView) -> Seq<
    DownloadConfigurationView,
> {
    match configuration.downloads {
        Some(entries) => entries,
        None => Seq::empty(),
    }
}

/// Every run parsing a configuration body performs, in order: the packages
/// section first, then version control, then downloads.
pub open spec fn configuration_invocations(configuration: ConfigurationView) -> Seq<Invocation> {
    packages_invocations(packages_entries(configuration)) + version_control_invocations(
        version_control_entries(configuration),
    ) + downloads_invocations(download_entries(configuration))
}

/// Every note parsing a configuration body produces, in the same order,
/// given one outcome sequence per entry and section.
pub open spec fn configuration_notes(
    configuration: ConfigurationView,
    package_outcomes: Seq<Seq<bool>>,
    version_control_outcomes: Seq<Seq<bool>>,
    download_outcomes: Seq<Seq<bool>>,
) -> Seq<Note> {
    packages_notes(packages_entries(configuration), package_outcomes) + version_control_notes(
        version_control_entries(configuration),
        version_control_outcomes,
    ) + downloads_notes(download_entries(configuration), download_outcomes)
}

/// A configuration body with all three sections absent performs no runs
/// and produces no notifications.
pub proof fn lemma_empty_configuration_inert(configuration: ConfigurationView)
    requires
        configuration.packages is None,
        configuration.version_control is None,
        configuration.downloads is None,
    ensures
        configuration_invocations(configuration) == Seq::<Invocation>::empty(),
        configuration_notes(configuration, Seq::empty(), Seq::empty(), Seq::empty()) == Seq::<
            Note,
        >::empty(),
{
    assert(configuration_invocations(configuration) =~= Seq::<Invocation>::empty());
    assert(configuration_notes(configuration, Seq::empty(), Seq::empty(), Seq::empty()) =~= Seq::<
        Note,
    >::empty());
}

proof fn lemma_packages_invocations_push(
    entries: Seq<PackageConfigurationView>,
    entry: PackageConfigurationView,
)
    ensures
        packages_invocations(entries.push(entry)) == packages_invocations(entries)
            + package_entry_invocations(entry),
    decreases entries.len(),
{
    if entries.len() == 0 {
        assert(entries.push(entry).drop_first() =~= entries);
        assert(packages_invocations(entries.push(entry)) =~= packages_invocations(entries)
            + package_entry_invocations(entry));
    } else {
        lemma_packages_invocations_push(entries.drop_first(), entry);
        assert(entries.push(entry).drop_first() =~= entries.drop_first().push(entry));
        assert(packages_invocations(entries.push(entry)) =~= packages_invocations(entries)
            + package_entry_invocations(entry));
    }
}

proof fn lemma_version_control_invocations_push(
    entries: Seq<VersionControlConfigurationView>,
    entry: VersionControlConfigurationView,
)
    ensures
        version_control_invocations(entries.push(entry)) == version_control_invocations(entries)
            + version_control_entry_invocations(entry),
    decreases entries.len(),
{
    if entries.len() == 0 {
        assert(entries.push(entry).drop_first() =~= entries);
        assert(version_control_invocations(entries.push(entry)) =~= version_control_invocations(
            entries,
        ) + version_control_entry_invocations(entry));
    } else {
        lemma_version_control_invocations_push(entries.drop_first(), entry);
        assert(entries.push(entry).drop_first() =~= entries.drop_first().push(entry));
        assert(version_control_invocations(entries.push(entry)) =~= version_control_invocations(
            entries,
        ) + version_control_entry_invocations(entry));
    }
}

proof fn lemma_downloads_invocations_push(
    entries: Seq<DownloadConfigurationView>,
    entry: DownloadConfigurationView,
)
    ensures
        downloads_invocations(entries.push(entry)) == downloads_invocations(entries)
            + download_entry_invocations(entry),
    decreases entries.len(),
{
    if entries.len() == 0 {
        assert(entries.push(entry).drop_first() =~= entries);
        assert(downloads_invocations(entries.push(entry)) =~= downloads_invocations(entries)
            + download_entry_invocations(entry));
    } else {
        lemma_downloads_invocations_push(entries.drop_first(), entry);
        assert(entries.push(entry).drop_first() =~= entries.drop_first().push(entry));
        assert(downloads_invocations(entries.push(entry)) =~= downloads_invocations(entries)
            + download_entry_invocations(entry));
    }
}

proof fn lemma_packages_notes_push(
    entries: Seq<PackageConfigurationView>,
    outcomes: Seq<Seq<bool>>,
    entry: PackageConfigurationView,
    entry_outcomes: Seq<bool>,
)
    requires
        outcomes.len() == entries.len(),
    ensures
        packages_notes(entries.push(entry), outcomes.push(entry_outcomes)) == packages_notes(
            entries,
            outcomes,
        ) + package_entry_notes(entry, entry_outcomes),
    decreases entries.len(),
{
    if entries.len() == 0 {
        assert(entries.push(entry).drop_first() =~= entries);
        assert(outcomes.push(entry_outcomes).drop_first() =~= outcomes);
        assert(packages_notes(entries.push(entry), outcomes.push(entry_outcomes))
            =~= packages_notes(entries, outcomes) + package_entry_notes(entry, entry_outcomes));
    } else {
        lemma_packages_notes_push(
            entries.drop_first(),
            outcomes.drop_first(),
            entry,
            entry_outcomes,
        );
        assert(entries.push(entry).drop_first() =~= entries.drop_first().push(entry));
        assert(outcomes.push(entry_outcomes).drop_first() =~= outcomes.drop_first().push(
            entry_outcomes,
        ));
        assert(packages_notes(entries.push(entry), outcomes.push(entry_outcomes))
            =~= packages_notes(entries, outcomes) + package_entry_notes(entry, entry_outcomes));
    }
}

proof fn lemma_version_control_notes_push(
    entries: Seq<VersionControlConfigurationView>,
    outcomes: Seq<Seq<bool>>,
    entry: VersionControlConfigurationView,
    entry_outcomes: Seq<bool>,
)
    requires
        outcomes.len() == entries.len(),
    ensures
        version_control_notes(entries.push(entry), outcomes.push(entry_outcomes))
            == version_control_notes(entries, outcomes) + version_control_entry_notes(
            entry,
            entry_outcomes,
        ),
    decreases entries.len(),
{
    if entries.len() == 0 {
        assert(entries.push(entry).drop_first() =~= entries);
        assert(outcomes.push(entry_outcomes).drop_first() =~= outcomes);
        assert(version_control_notes(entries.push(entry), outcomes.push(entry_outcomes))
            =~= version_control_notes(entries, outcomes) + version_control_entry_notes(
            entry,
            entry_outcomes,
        ));
    } else {
        lemma_version_control_notes_push(
            entries.drop_first(),
            outcomes.drop_first(),
            entry,
            entry_outcomes,
        );
        assert(entries.push(entry).drop_first() =~= entries.drop_first().push(entry));
        assert(outcomes.push(entry_outcomes).drop_first() =~= outcomes.drop_first().push(
            entry_outcomes,
        ));
        assert(version_control_notes(entries.push(entry), outcomes.push(entry_outcomes))
            =~= version_control_notes(entries, outcomes) + version_control_entry_notes(
            entry,
            entry_outcomes,
        ));
    }
}

proof fn lemma_downloads_notes_push(
    entries: Seq<DownloadConfigurationView>,
    outcomes: Seq<Seq<bool>>,
    entry: DownloadConfigurationView,
    entry_outcomes: Seq<bool>,
)
    requires
        outcomes.len() == entries.len(),
    ensures
        downloads_notes(entries.push(entry), outcomes.push(entry_outcomes)) == downloads_notes(
            entries,
            outcomes,
        ) + download_entry_notes(entry, entry_outcomes),
    decreases entries.len(),
{
    if entries.len() == 0 {
        assert(entries.push(entry).drop_first() =~= entries);
        assert(outcomes.push(entry_outcomes).drop_first() =~= outcomes);
        assert(downloads_notes(entries.push(entry), outcomes.push(entry_outcomes))
            =~= downloads_notes(entries, outcomes) + download_entry_notes(entry, entry_outcomes));
    } else {
        lemma_downloads_notes_push(
            entries.drop_first(),
            outcomes.drop_first(),
            entry,
            entry_outcomes,
        );
        assert(entries.push(entry).drop_first() =~= entries.drop_first().push(entry));
        assert(outcomes.push(entry_outcomes).drop_first() =~= outcomes.drop_first().push(
            entry_outcomes,
        ));
        assert(downloads_notes(entries.push(entry), outcomes.push(entry_outcomes))
            =~= downloads_notes(entries, outcomes) + download_entry_notes(entry, entry_outcomes));
    }
}

/// Parser for version 1.0 of the configuration schema.
#[derive(Clone, Copy, Debug)]
pub struct Version100Parser {
    pub package_manager_factory: PackageManagerFactoryImpl,
    pub version_control_system_factory: VersionControlSystemFactoryImpl,
    pub file_download_factory: FileDownloadFactoryImpl,
}

impl Version100Parser {
    /// A v1.0 parser resolving tools through the given factories.
    pub fn new(
        package_manager_factory: PackageManagerFactoryImpl,
        version_control_system_factory: VersionControlSystemFactoryImpl,
        file_download_factory: FileDownloadFactoryImpl,
    ) -> (result: Version100Parser)
        ensures
            result.package_manager_factory == package_manager_factory,
            result.version_control_system_factory == version_control_system_factory,
            result.file_download_factory == file_download_factory,
    {
        Version100Parser {
            package_manager_factory,
            version_control_system_factory,
            file_download_factory,
        }
    }

    /// Walk the packages section: resolve each entry's package manager and
    /// let it install the entry's applications; skip unsupported entries
    /// silently.
    fn parse_packages<C: Command, T: TerminalOutput>(
        &self,
        applications_configuration: &Vec<PackageConfiguration>,
        command: &mut C,
        output: &mut T,
    )
        ensures
            final(command).invocations() == old(command).invocations() + packages_invocations(
                applications_configuration.deep_view(),
            ),
            exists|outcomes: Seq<Seq<bool>>|
                packages_outcomes_match(applications_configuration.deep_view(), outcomes)
                    && final(output).notes() == old(output).notes() + packages_notes(
                    applications_configuration.deep_view(),
                    outcomes,
                ),
    {
        let ghost initial_invocations = command.invocations();
        let ghost initial_notes = output.notes();
        let ghost entries = applications_configuration.deep_view();
        let ghost mut outcomes: Seq<Seq<bool>> = Seq::empty();
        let mut index: usize = 0;
        proof {
            assert(entries.take(0) =~= Seq::<PackageConfigurationView>::empty());
            assert(initial_invocations + packages_invocations(entries.take(0))
                =~= initial_invocations);
            assert(initial_notes + packages_notes(entries.take(0), outcomes) =~= initial_notes);
        }
        while index < applications_configuration.len()
            invariant
                index <= applications_configuration.len(),
                entries == applications_configuration.deep_view(),
                entries.len() == applications_configuration@.len(),
                command.invocations() == initial_invocations + packages_invocations(
                    entries.take(index as int),
                ),
                outcomes.len() == index,
                packages_outcomes_match(entries.take(index as int), outcomes),
                output.notes() == initial_notes + packages_notes(
                    entries.take(index as int),
                    outcomes,
                ),
            decreases applications_configuration.len() - index,
        {
            let application_config = &applications_configuration[index];
            proof {
                assert(application_config@ == entries[index as int]);
            }
            let ghost invocations_before_entry = command.invocations();
            let ghost notes_before_entry = output.notes();
            let ghost mut entry_outcomes: Seq<bool> = Seq::empty();
            let package_manager = self.package_manager_factory.get_package_manager(
                &application_config.package_manager,
                &application_config.source,
            );
            match package_manager {
                Some(handler) => {
                    handler.install(&application_config.applications, command, output);
                    proof {
                        entry_outcomes = choose|oc: Seq<bool>|
                            oc.len() == application_config.applications.deep_view().len()
                                && output.notes() == notes_before_entry + batch_notes(
                                handler.note_style(),
                                application_config.applications.deep_view(),
                                oc,
                            );
                        assert(package_entry_supported(entries[index as int]));
                        assert(handler.planned_invocations(
                            application_config.applications.deep_view(),
                        ) == package_entry_invocations(entries[index as int]));
                        assert(command.invocations() =~= invocations_before_entry
                            + package_entry_invocations(entries[index as int]));
                        assert(output.notes() == notes_before_entry + package_entry_notes(
                            entries[index as int],
                            entry_outcomes,
                        ));
                        assert(package_entry_outcomes_match(
                            entries[index as int],
                            entry_outcomes,
                        ));
                    }
                },
                None => {
                    proof {
                        assert(!package_entry_supported(entries[index as int]));
                        assert(package_entry_invocations(entries[index as int]) =~= Seq::<
                            Invocation,
                        >::empty());
                        assert(command.invocations() =~= invocations_before_entry
                            + package_entry_invocations(entries[index as int]));
                        assert(package_entry_notes(entries[index as int], entry_outcomes) =~= Seq::<
                            Note,
                        >::empty());
                        assert(output.notes() =~= notes_before_entry + package_entry_notes(
                            entries[index as int],
                            entry_outcomes,
                        ));
                        assert(package_entry_outcomes_match(
                            entries[index as int],
                            entry_outcomes,
                        ));
                    }
                },
            }
            proof {
                lemma_packages_invocations_push(entries.take(index as int), entries[index as int]);
                lemma_packages_notes_push(
                    entries.take(index as int),
                    outcomes,
                    entries[index as int],
                    entry_outcomes,
                );
                assert(entries.take(index as int).push(entries[index as int]) =~= entries.take(
                    index as int + 1,
                ));
                outcomes = outcomes.push(entry_outcomes);
                assert(command.invocations() =~= initial_invocations + packages_invocations(
                    entries.take(index as int + 1),
                ));
                assert(output.notes() =~= initial_notes + packages_notes(
                    entries.take(index as int + 1),
                    outcomes,
                ));
                assert(packages_outcomes_match(entries.take(index as int + 1), outcomes));
            }
            index += 1;
        }
        proof {
            assert(entries.take(applications_configuration@.len() as int) =~= entries);
            assert(exists|witness: Seq<Seq<bool>>|
                packages_outcomes_match(applications_configuration.deep_view(), witness)
                    && output.notes() == initial_notes + packages_notes(
                    applications_configuration.deep_view(),
                    witness,
                )) by {
                assert(packages_outcomes_match(applications_configuration.deep_view(), outcomes)
                    && output.notes() == initial_notes + packages_notes(
                    applications_configuration.deep_view(),
                    outcomes,
                ));
            }
        }
    }

    /// Walk the version-control section: resolve each entry's version
    /// control system and let it download the entry's repositories; skip
    /// unsupported entries silently.
    fn parse_version_control<C: Command, T: TerminalOutput>(
        &self,
        version_control_configuration: &Vec<VersionControlConfiguration>,
        command: &mut C,
        output: &mut T,
    )
        ensures
            final(command).invocations() == old(command).invocations()
                + version_control_invocations(version_control_configuration.deep_view()),
            exists|outcomes: Seq<Seq<bool>>|
                version_control_outcomes_match(
                    version_control_configuration.deep_view(),
                    outcomes,
                ) && final(output).notes() == old(output).notes() + version_control_notes(
                    version_control_configuration.deep_view(),
                    outcomes,
                ),
    {
        let ghost initial_invocations = command.invocations();
        let ghost initial_notes = output.notes();
        let ghost entries = version_control_configuration.deep_view();
        let ghost mut outcomes: Seq<Seq<bool>> = Seq::empty();
        let mut index: usize = 0;
        proof {
            assert(entries.take(0) =~= Seq::<VersionControlConfigurationView>::empty());
            assert(initial_invocations + version_control_invocations(entries.take(0))
                =~= initial_invocations);
            assert(initial_notes + version_control_notes(entries.take(0), outcomes)
                =~= initial_notes);
        }
        while index < version_control_configuration.len()
            invariant
                index <= version_control_configuration.len(),
                entries == version_control_configuration.deep_view(),
                entries.len() == version_control_configuration@.len(),
                command.invocations() == initial_invocations + version_control_invocations(
                    entries.take(index as int),
                ),
                outcomes.len() == index,
                version_control_outcomes_match(entries.take(index as int), outcomes),
                output.notes() == initial_notes + version_control_notes(
                    entries.take(index as int),
                    outcomes,
                ),
            decreases version_control_configuration.len() - index,
        {
            let version_control_item_config = &version_control_configuration[index];
            proof {
                assert(version_control_item_config@ == entries[index as int]);
            }
            let ghost invocations_before_entry = command.invocations();
            let ghost notes_before_entry = output.notes();
            let ghost mut entry_outcomes: Seq<bool> = Seq::empty();
            let version_control_system =
                self.version_control_system_factory.get_version_control_system(
                version_control_item_config.vcs.as_str(),
                version_control_item_config.destination_folder.as_str(),
            );
            match version_control_system {
                Some(handler) => {
                    handler.download(&version_control_item_config.repositories, command, output);
                    proof {
                        entry_outcomes = choose|oc: Seq<bool>|
                            oc.len() == version_control_item_config.repositories.deep_view().len()
                                && output.notes() == notes_before_entry + batch_notes(
                                handler.note_style(),
                                version_control_item_config.repositories.deep_view(),
                                oc,
                            );
                        assert(version_control_entry_supported(entries[index as int]));
                        assert(handler.planned_invocations(
                            version_control_item_config.repositories.deep_view(),
                        ) == version_control_entry_invocations(entries[index as int]));
                        assert(command.invocations() =~= invocations_before_entry
                            + version_control_entry_invocations(entries[index as int]));
                        assert(output.notes() == notes_before_entry + version_control_entry_notes(
                            entries[index as int],
                            entry_outcomes,
                        ));
                        assert(version_control_entry_outcomes_match(
                            entries[index as int],
                            entry_outcomes,
                        ));
                    }
                },
                None => {
                    proof {
                        assert(!version_control_entry_supported(entries[index as int]));
                        assert(version_control_entry_invocations(entries[index as int]) =~= Seq::<
                            Invocation,
                        >::empty());
                        assert(command.invocations() =~= invocations_before_entry
                            + version_control_entry_invocations(entries[index as int]));
                        assert(version_control_entry_notes(entries[index as int], entry_outcomes)
                            =~= Seq::<Note>::empty());
                        assert(output.notes() =~= notes_before_entry + version_control_entry_notes(
                            entries[index as int],
                            entry_outcomes,
                        ));
                        assert(version_control_entry_outcomes_match(
                            entries[index as int],
                            entry_outcomes,
                        ));
                    }
                },
            }
            proof {
                lemma_version_control_invocations_push(
                    entries.take(index as int),
                    entries[index as int],
                );
                lemma_version_control_notes_push(
                    entries.take(index as int),
                    outcomes,
                    entries[index as int],
                    entry_outcomes,
                );
                assert(entries.take(index as int).push(entries[index as int]) =~= entries.take(
                    index as int + 1,
                ));
                outcomes = outcomes.push(entry_outcomes);
                assert(command.invocations() =~= initial_invocations
                    + version_control_invocations(entries.take(index as int + 1)));
                assert(output.notes() =~= initial_notes + version_control_notes(
                    entries.take(index as int + 1),
                    outcomes,
                ));
                assert(version_control_outcomes_match(entries.take(index as int + 1), outcomes));
            }
            index += 1;
        }
        proof {
            assert(entries.take(version_control_configuration@.len() as int) =~= entries);
            assert(exists|witness: Seq<Seq<bool>>|
                version_control_outcomes_match(version_control_configuration.deep_view(), witness)
                    && output.notes() == initial_notes + version_control_notes(
                    version_control_configuration.deep_view(),
                    witness,
                )) by {
                assert(version_control_outcomes_match(
                    version_control_configuration.deep_view(),
                    outcomes,
                ) && output.notes() == initial_notes + version_control_notes(
                    version_control_configuration.deep_view(),
                    outcomes,
                ));
            }
        }
    }

    /// Walk the downloads section: resolve each entry's download manager
    /// and let it download the entry's files; skip unsupported entries
    /// silently.
    fn parse_download_files<C: Command, T: TerminalOutput>(
        &self,
        remote_sources: &Vec<DownloadConfiguration>,
        command: &mut C,
        output: &mut T,
    )
        ensures
            final(command).invocations() == old(command).invocations() + downloads_invocations(
                remote_sources.deep_view(),
            ),
            exists|outcomes: Seq<Seq<bool>>|
                downloads_outcomes_match(remote_sources.deep_view(), outcomes)
                    && final(output).notes() == old(output).notes() + downloads_notes(
                    remote_sources.deep_view(),
                    outcomes,
                ),
    {
        let ghost initial_invocations = command.invocations();
        let ghost initial_notes = output.notes();
        let ghost entries = remote_sources.deep_view();
        let ghost mut outcomes: Seq<Seq<bool>> = Seq::empty();
        let mut index: usize = 0;
        proof {
            assert(entries.take(0) =~= Seq::<DownloadConfigurationView>::empty());
            assert(initial_invocations + downloads_invocations(entries.take(0))
                =~= initial_invocations);
            assert(initial_notes + downloads_notes(entries.take(0), outcomes) =~= initial_notes);
        }
        while index < remote_sources.len()
            invariant
                index <= remote_sources.len(),
                entries == remote_sources.deep_view(),
                entries.len() == remote_sources@.len(),
                command.invocations() == initial_invocations + downloads_invocations(
                    entries.take(index as int),
                ),
                outcomes.len() == index,
                downloads_outcomes_match(entries.take(index as int), outcomes),
                output.notes() == initial_notes + downloads_notes(
                    entries.take(index as int),
                    outcomes,
                ),
            decreases remote_sources.len() - index,
        {
            let remote_source = &remote_sources[index];
            proof {
                assert(remote_source@ == entries[index as int]);
            }
            let ghost invocations_before_entry = command.invocations();
            let ghost notes_before_entry = output.notes();
            let ghost mut entry_outcomes: Seq<bool> = Seq::empty();
            let download_manager = self.file_download_factory.get_file_downloader(
                remote_source.download_manager.as_str(),
                remote_source.destination_folder.as_str(),
            );
            match download_manager {
                Some(handler) => {
                    handler.download(&remote_source.files, command, output);
                    proof {
                        entry_outcomes = choose|oc: Seq<bool>|
                            oc.len() == remote_source.files.deep_view().len() && output.notes()
                                == notes_before_entry + batch_notes(
                                handler.note_style(),
                                remote_source.files.deep_view(),
                                oc,
                            );
                        assert(download_entry_supported(entries[index as int]));
                        assert(handler.planned_invocations(remote_source.files.deep_view())
                            == download_entry_invocations(entries[index as int]));
                        assert(command.invocations() =~= invocations_before_entry
                            + download_entry_invocations(entries[index as int]));
                        assert(output.notes() == notes_before_entry + download_entry_notes(
                            entries[index as int],
                            entry_outcomes,
                        ));
                        assert(download_entry_outcomes_match(
                            entries[index as int],
                            entry_outcomes,
                        ));
                    }
                },
                None => {
                    proof {
                        assert(!download_entry_supported(entries[index as int]));
                        assert(download_entry_invocations(entries[index as int]) =~= Seq::<
                            Invocation,
                        >::empty());
                        assert(command.invocations() =~= invocations_before_entry
                            + download_entry_invocations(entries[index as int]));
                        assert(download_entry_notes(entries[index as int], entry_outcomes)
                            =~= Seq::<Note>::empty());
                        assert(output.notes() =~= notes_before_entry + download_entry_notes(
                            entries[index as int],
                            entry_outcomes,
                        ));
                        assert(download_entry_outcomes_match(
                            entries[index as int],
                            entry_outcomes,
                        ));
                    }
                },
            }
            proof {
                lemma_downloads_invocations_push(entries.take(index as int), entries[index as int]);
                lemma_downloads_notes_push(
                    entries.take(index as int),
                    outcomes,
                    entries[index as int],
                    entry_outcomes,
                );
                assert(entries.take(index as int).push(entries[index as int]) =~= entries.take(
                    index as int + 1,
                ));
                outcomes = outcomes.push(entry_outcomes);
                assert(command.invocations() =~= initial_invocations + downloads_invocations(
                    entries.take(index as int + 1),
                ));
                assert(output.notes() =~= initial_notes + downloads_notes(
                    entries.take(index as int + 1),
                    outcomes,
                ));
                assert(downloads_outcomes_match(entries.take(index as int + 1), outcomes));
            }
            index += 1;
        }
        proof {
            assert(entries.take(remote_sources@.len() as int) =~= entries);
            assert(exists|witness: Seq<Seq<bool>>|
                downloads_outcomes_match(remote_sources.deep_view(), witness) && output.notes()
                    == initial_notes + downloads_notes(remote_sources.deep_view(), witness)) by {
                assert(downloads_outcomes_match(remote_sources.deep_view(), outcomes)
                    && output.notes() == initial_notes + downloads_notes(
                    remote_sources.deep_view(),
                    outcomes,
                ));
            }
        }
    }
}

impl Parser for Version100Parser {
    open spec fn planned_invocations(&self, configuration: ConfigurationView) -> Seq<Invocation> {
        configuration_invocations(configuration)
    }

    open spec fn notes_produced(
        &self,
        configuration: ConfigurationView,
        pre: Seq<Note>,
        post: Seq<Note>,
    ) -> bool {
        exists|
            package_outcomes: Seq<Seq<bool>>,
            version_control_outcomes: Seq<Seq<bool>>,
            download_outcomes: Seq<Seq<bool>>,
        |
            packages_outcomes_match(packages_entries(configuration), package_outcomes)
                && version_control_outcomes_match(
                version_control_entries(configuration),
                version_control_outcomes,
            ) && downloads_outcomes_match(download_entries(configuration), download_outcomes)
                && post == pre + configuration_notes(
                configuration,
                package_outcomes,
                version_control_outcomes,
                download_outcomes,
            )
    }

    fn parse<C: Command, T: TerminalOutput>(
        &self,
        configuration: &Configuration,
        command: &mut C,
        output: &mut T,
    ) {
        let ghost initial_invocations = command.invocations();
        let ghost initial_notes = output.notes();
        let ghost mut package_outcomes: Seq<Seq<bool>> = Seq::empty();
        let ghost mut version_control_outcomes: Seq<Seq<bool>> = Seq::empty();
        let ghost mut download_outcomes: Seq<Seq<bool>> = Seq::empty();

        if let Some(packages) = &configuration.packages {
            let ghost notes_before = output.notes();
            self.parse_packages(packages, command, output);
            proof {
                package_outcomes = choose|ocs: Seq<Seq<bool>>|
                    packages_outcomes_match(packages.deep_view(), ocs) && output.notes()
                        == notes_before + packages_notes(packages.deep_view(), ocs);
            }
        }
        proof {
            assert(command.invocations() =~= initial_invocations + packages_invocations(
                packages_entries(configuration@),
            ));
            assert(packages_outcomes_match(packages_entries(configuration@), package_outcomes));
            assert(output.notes() =~= initial_notes + packages_notes(
                packages_entries(configuration@),
                package_outcomes,
            ));
        }
        let ghost invocations_after_packages = command.invocations();
        let ghost notes_after_packages = output.notes();

        if let Some(version_control_systems) = &configuration.version_control {
            let ghost notes_before = output.notes();
            self.parse_version_control(version_control_systems, command, output);
            proof {
                version_control_outcomes = choose|ocs: Seq<Seq<bool>>|
                    version_control_outcomes_match(version_control_systems.deep_view(), ocs)
                        && output.notes() == notes_before + version_control_notes(
                        version_control_systems.deep_view(),
                        ocs,
                    );
            }
        }
        proof {
            assert(command.invocations() =~= invocations_after_packages
                + version_control_invocations(version_control_entries(configuration@)));
            assert(version_control_outcomes_match(
                version_control_entries(configuration@),
                version_control_outcomes,
            ));
            assert(output.notes() =~= notes_after_packages + version_control_notes(
                version_control_entries(configuration@),
                version_control_outcomes,
            ));
        }
        let ghost invocations_after_version_control = command.invocations();
        let ghost notes_after_version_control = output.notes();

        if let Some(downloads) = &configuration.downloads {
            let ghost notes_before = output.notes();
            self.parse_download_files(downloads, command, output);
            proof {
                download_outcomes = choose|ocs: Seq<Seq<bool>>|
                    downloads_outcomes_match(downloads.deep_view(), ocs) && output.notes()
                        == notes_before + downloads_notes(downloads.deep_view(), ocs);
            }
        }
        proof {
            assert(command.invocations() =~= invocations_after_version_control
                + downloads_invocations(download_entries(configuration@)));
            assert(downloads_outcomes_match(download_entries(configuration@), download_outcomes));
            assert(output.notes() =~= notes_after_version_control + downloads_notes(
                download_entries(configuration@),
                download_outcomes,
            ));

            assert(command.invocations() =~= initial_invocations + configuration_invocations(
                configuration@,
            ));
            assert(output.notes() =~= initial_notes + configuration_notes(
                configuration@,
                package_outcomes,
                version_control_outcomes,
                download_outcomes,
            ));
            assert(self.notes_produced(configuration@, initial_notes, output.notes())) by {
                assert(packages_outcomes_match(packages_entries(configuration@), package_outcomes)
                    && version_control_outcomes_match(
                    version_control_entries(configuration@),
                    version_control_outcomes,
                ) && downloads_outcomes_match(download_entries(configuration@), download_outcomes)
                    && output.notes() == initial_notes + configuration_notes(
                    configuration@,
                    package_outcomes,
                    version_control_outcomes,
                    download_outcomes,
                ));
            }
        }
    }
}

} // verus!
