//! What a run does to the warehouse, under a model of the engine's statements.
//!
//! The engine and the warehouse are outside this library. This module states
//! what the three statements of a run are taken to do, and proves what then
//! holds of the destination table for every sequence of replies that the
//! engine may give. The model:
//!
//! - opening a session and attaching the warehouse change no table;
//! - a statement that fails changes no table;
//! - the drop statement, when done, leaves the destination absent, whether or
//!   not it existed, and every other table as it was;
//! - the create statement is done only if the source file can be read and
//!   the destination is absent; the destination then holds the file's table.

use vstd::prelude::*;
use crate::config::{first_defect, ConfigView};
use crate::run::{
    action_at,
    initial_stage,
    stage_after,
    start,
    ActionView,
    RunErrorView,
    StageView,
    Step,
};
use crate::statement::destination_table_text;

verus! {

/// A table: its column names and its rows, each row a value per column.
pub struct Table {
    pub columns: Seq<Seq<char>>,
    pub rows: Seq<Seq<Seq<char>>>,
}

/// The tables of the attached warehouse, by name.
pub type Tables = Map<Seq<char>, Table>;

/// The parquet files that can be read, by location, each with the table it
/// holds. A location outside the domain is missing or malformed.
pub type Files = Map<Seq<char>, Table>;

/// The tables after the engine has replied to `step`, done or failed.
pub open spec fn effect(step: Step, config: ConfigView, done: bool, files: Files, tables: Tables) -> Tables {
    if !done {
        tables
    } else {
        match step {
            Step::OpenSession => tables,
            Step::Attach => tables,
            Step::DropIfExists => tables.remove(destination_table_text()),
            Step::CreateFromFile => tables.insert(destination_table_text(), files[config.source]),
        }
    }
}

/// Whether the engine can give this reply to `step` with the tables as they
/// are: the create statement is done only for a readable file and an absent
/// destination. Any other reply is possible.
pub open spec fn engine_may_reply(
    step: Step,
    config: ConfigView,
    done: bool,
    files: Files,
    tables: Tables,
) -> bool {
    step == Step::CreateFromFile && done ==> files.dom().contains(config.source) && !tables.dom().contains(
        destination_table_text(),
    )
}

/// The tables after a run that began at `stage` with `tables` has received
/// replies with these causes.
pub open spec fn tables_after(
    stage: StageView,
    tables: Tables,
    files: Files,
    causes: Seq<Option<Seq<char>>>,
) -> Tables
    decreases causes.len(),
{
    if causes.len() == 0 {
        tables
    } else {
        let before = tables_after(stage, tables, files, causes.drop_last());
        match stage_after(stage, causes.drop_last()) {
            StageView::Pending { config, step } => effect(step, config, causes.last() is None, files, before),
            StageView::Succeeded => before,
            StageView::Failed(_) => before,
        }
    }
}

/// Whether the engine can give replies with these causes, one after the
/// other, to a run that began at `stage` with `tables`.
pub open spec fn possible(stage: StageView, tables: Tables, files: Files, causes: Seq<Option<Seq<char>>>) -> bool
    decreases causes.len(),
{
    causes.len() == 0 || {
        &&& possible(stage, tables, files, causes.drop_last())
        &&& match stage_after(stage, causes.drop_last()) {
            StageView::Pending { config, step } => engine_may_reply(
                step,
                config,
                causes.last() is None,
                files,
                tables_after(stage, tables, files, causes.drop_last()),
            ),
            StageView::Succeeded => true,
            StageView::Failed(_) => true,
        }
    }
}

/// What holds of the tables at each stage of a run that began with `initial`.
spec fn reached(config: ConfigView, initial: Tables, files: Files, stage: StageView, tables: Tables) -> bool {
    let destination = destination_table_text();
    match stage {
        StageView::Pending { config: held, step } => {
            &&& held == config
            &&& tables == if step == Step::CreateFromFile {
                initial.remove(destination)
            } else {
                initial
            }
        },
        StageView::Succeeded => {
            &&& files.dom().contains(config.source)
            &&& tables == initial.insert(destination, files[config.source])
        },
        StageView::Failed(_) => tables == initial || tables == initial.remove(destination),
    }
}

proof fn lemma_reached(config: ConfigView, initial: Tables, files: Files, causes: Seq<Option<Seq<char>>>)
    requires
        possible(start(config), initial, files, causes),
    ensures
        reached(
            config,
            initial,
            files,
            stage_after(start(config), causes),
            tables_after(start(config), initial, files, causes),
        ),
    decreases causes.len(),
{
    if causes.len() > 0 {
        lemma_reached(config, initial, files, causes.drop_last());
        let destination = destination_table_text();
        let table = files[config.source];
        assert(initial.remove(destination).insert(destination, table) == initial.insert(destination, table));
    }
}

/// After a run that succeeded, the destination holds
/// exactly the table of the source file, whatever it held before and whether
/// or not it existed, and every other table is as it was.
pub proof fn lemma_success_replaces_destination(
    config: ConfigView,
    initial: Tables,
    files: Files,
    causes: Seq<Option<Seq<char>>>,
)
    requires
        possible(start(config), initial, files, causes),
        stage_after(start(config), causes) is Succeeded,
    ensures
        files.dom().contains(config.source),
        tables_after(start(config), initial, files, causes) == initial.insert(
            destination_table_text(),
            files[config.source],
        ),
        tables_after(start(config), initial, files, causes)[destination_table_text()].rows
            == files[config.source].rows,
{
    lemma_reached(config, initial, files, causes);
}

/// A second run changes nothing. When two runs with the same settings and
/// the same files both succeed, one after the other, the tables after the
/// second are the tables after the first.
pub proof fn lemma_second_run_changes_nothing(
    config: ConfigView,
    initial: Tables,
    files: Files,
    first: Seq<Option<Seq<char>>>,
    second: Seq<Option<Seq<char>>>,
)
    requires
        possible(start(config), initial, files, first),
        stage_after(start(config), first) is Succeeded,
        possible(start(config), tables_after(start(config), initial, files, first), files, second),
        stage_after(start(config), second) is Succeeded,
    ensures
        tables_after(start(config), tables_after(start(config), initial, files, first), files, second)
            == tables_after(start(config), initial, files, first),
{
    let destination = destination_table_text();
    let table = files[config.source];
    let between = tables_after(start(config), initial, files, first);
    lemma_reached(config, initial, files, first);
    lemma_reached(config, between, files, second);
    assert(between.insert(destination, table) == between);
}

/// No table is ever half filled. At every point of a run the tables are
/// those before the run, or those with the destination removed, or, once the
/// run has succeeded and only then, those with the destination replaced by
/// the table of the source file.
pub proof fn lemma_destination_is_whole(
    config: ConfigView,
    initial: Tables,
    files: Files,
    causes: Seq<Option<Seq<char>>>,
)
    requires
        possible(start(config), initial, files, causes),
    ensures
        ({
            let tables = tables_after(start(config), initial, files, causes);
            if stage_after(start(config), causes) is Succeeded {
                tables == initial.insert(destination_table_text(), files[config.source])
            } else {
                tables == initial || tables == initial.remove(destination_table_text())
            }
        }),
{
    lemma_reached(config, initial, files, causes);
}

/// A source file that cannot be read makes every run fail or wait, and the
/// destination is then absent or as it was before the run.
pub proof fn lemma_unreadable_source_leaves_no_partial_table(
    config: ConfigView,
    initial: Tables,
    files: Files,
    causes: Seq<Option<Seq<char>>>,
)
    requires
        !files.dom().contains(config.source),
        possible(start(config), initial, files, causes),
    ensures
        !(stage_after(start(config), causes) is Succeeded),
        ({
            let destination = destination_table_text();
            let tables = tables_after(start(config), initial, files, causes);
            ||| !tables.dom().contains(destination)
            ||| (initial.dom().contains(destination) && tables.dom().contains(destination)
                && tables[destination] == initial[destination])
        }),
{
    lemma_reached(config, initial, files, causes);
}

/// The drop statement never stands in the way. With a readable source file,
/// four replies without a failure are possible from any tables, with or
/// without the destination among them, and they bring the run to success.
pub proof fn lemma_run_can_succeed(config: ConfigView, initial: Tables, files: Files)
    requires
        files.dom().contains(config.source),
    ensures
        ({
            let causes = Seq::new(4, |i: int| None::<Seq<char>>);
            &&& possible(start(config), initial, files, causes)
            &&& stage_after(start(config), causes) is Succeeded
            &&& tables_after(start(config), initial, files, causes)[destination_table_text()]
                == files[config.source]
        }),
{
    let causes = Seq::new(4, |i: int| None::<Seq<char>>);
    let three = causes.drop_last();
    let two = three.drop_last();
    let one = two.drop_last();
    let none = one.drop_last();
    assert(none.len() == 0);
    assert(possible(start(config), initial, files, none));
    assert(stage_after(start(config), none) == start(config));
    assert(possible(start(config), initial, files, one));
    assert(stage_after(start(config), one) == (StageView::Pending { config, step: Step::Attach }));
    assert(possible(start(config), initial, files, two));
    assert(stage_after(start(config), two) == (StageView::Pending { config, step: Step::DropIfExists }));
    assert(possible(start(config), initial, files, three));
    assert(stage_after(start(config), three) == (StageView::Pending { config, step: Step::CreateFromFile }));
    lemma_reached(config, initial, files, three);
    assert(possible(start(config), initial, files, causes));
    lemma_reached(config, initial, files, causes);
}

/// A missing setting ends the run before the engine is asked for anything.
/// Whatever replies are handed to such a run, it stays failed with the
/// configuration error, the only action it asks for is to report that error,
/// and no table changes.
pub proof fn lemma_missing_setting_touches_nothing(
    connection_url: Option<Seq<char>>,
    source: Option<Seq<char>>,
    initial: Tables,
    files: Files,
    causes: Seq<Option<Seq<char>>>,
)
    requires
        first_defect(connection_url, source) is Some,
    ensures
        stage_after(initial_stage(connection_url, source), causes) == StageView::Failed(
            RunErrorView::Configuration(first_defect(connection_url, source)->0),
        ),
        action_at(stage_after(initial_stage(connection_url, source), causes)) == ActionView::Finish(
            Err(RunErrorView::Configuration(first_defect(connection_url, source)->0)),
        ),
        tables_after(initial_stage(connection_url, source), initial, files, causes) == initial,
    decreases causes.len(),
{
    if causes.len() > 0 {
        lemma_missing_setting_touches_nothing(connection_url, source, initial, files, causes.drop_last());
    }
}

} // verus!
