//! The gameplay schema: its tables as data, and the batch of statements that
//! creates them.

use vstd::prelude::*;

verus! {

/// The declared type of a column.
#[derive(Debug, Clone, Copy, PartialEq, Eq, Structural)]
pub enum ColumnKind {
    Text,
    Integer,
    Timestamp,
}

/// One column of a table.
#[derive(Debug)]
pub struct Column {
    pub name: String,
    pub kind: ColumnKind,
    /// The column is the table's primary key.
    pub primary_key: bool,
    /// The column is `NOT NULL`.
    pub required: bool,
    /// The column defaults to the time of insertion.
    pub stamped: bool,
}

/// A foreign key: `column` refers to the `id` of `table`.
#[derive(Debug)]
pub struct Reference {
    pub column: String,
    pub table: String,
}

/// One table of the schema.
#[derive(Debug)]
pub struct Table {
    pub name: String,
    pub columns: Vec<Column>,
    pub references: Vec<Reference>,
}

/// Mathematical value of a [`Column`].
pub struct ColumnView {
    pub name: Seq<char>,
    pub kind: ColumnKind,
    pub primary_key: bool,
    pub required: bool,
    pub stamped: bool,
}

/// Mathematical value of a [`Reference`].
pub struct ReferenceView {
    pub column: Seq<char>,
    pub table: Seq<char>,
}

/// Mathematical value of a [`Table`].
pub struct TableView {
    pub name: Seq<char>,
    pub columns: Seq<ColumnView>,
    pub references: Seq<ReferenceView>,
}

impl View for Column {
    type V = ColumnView;

    open spec fn view(&self) -> ColumnView {
        ColumnView {
            name: self.name@,
            kind: self.kind,
            primary_key: self.primary_key,
            required: self.required,
            stamped: self.stamped,
        }
    }
}

impl View for Reference {
    type V = ReferenceView;

    open spec fn view(&self) -> ReferenceView {
        ReferenceView { column: self.column@, table: self.table@ }
    }
}

/// Mathematical value of a list of columns.
pub open spec fn columns_view(columns: &Vec<Column>) -> Seq<ColumnView> {
    Seq::new(columns.len() as nat, |i: int| columns[i]@)
}

/// Mathematical value of a list of foreign keys.
pub open spec fn references_view(references: &Vec<Reference>) -> Seq<ReferenceView> {
    Seq::new(references.len() as nat, |i: int| references[i]@)
}

impl View for Table {
    type V = TableView;

    open spec fn view(&self) -> TableView {
        TableView {
            name: self.name@,
            columns: columns_view(&self.columns),
            references: references_view(&self.references),
        }
    }
}

/// Mathematical value of a list of tables.
pub open spec fn tables_view(tables: &Vec<Table>) -> Seq<TableView> {
    Seq::new(tables.len() as nat, |i: int| tables[i]@)
}

/// The name of the key column of every table.
pub const KEY_COLUMN: &'static str = "id";

/// The textual primary key that every table has.
pub open spec fn key_column() -> ColumnView {
    ColumnView {
        name: KEY_COLUMN@,
        kind: ColumnKind::Text,
        primary_key: true,
        required: false,
        stamped: false,
    }
}

/// A column that must hold a value.
pub open spec fn required_column(name: Seq<char>, kind: ColumnKind) -> ColumnView {
    ColumnView { name, kind, primary_key: false, required: true, stamped: false }
}

/// A column that may be empty.
pub open spec fn optional_column(name: Seq<char>, kind: ColumnKind) -> ColumnView {
    ColumnView { name, kind, primary_key: false, required: false, stamped: false }
}

/// A timestamp that is set when the row is inserted.
pub open spec fn stamp_column(name: Seq<char>) -> ColumnView {
    ColumnView {
        name,
        kind: ColumnKind::Timestamp,
        primary_key: false,
        required: true,
        stamped: true,
    }
}

/// The foreign key from `column` to the `id` of `table`.
pub open spec fn reference_to(column: Seq<char>, table: Seq<char>) -> ReferenceView {
    ReferenceView { column, table }
}

/// The SQL name of a column type.
pub open spec fn kind_sql(kind: ColumnKind) -> Seq<char> {
    match kind {
        ColumnKind::Text => "TEXT"@,
        ColumnKind::Integer => "INTEGER"@,
        ColumnKind::Timestamp => "TIMESTAMP"@,
    }
}

/// The definition of a column: its name, its type, then its constraints.
pub open spec fn column_sql(column: ColumnView) -> Seq<char> {
    column.name + " "@ + kind_sql(column.kind) + (if column.primary_key {
        " PRIMARY KEY"@
    } else {
        Seq::empty()
    }) + (if column.required {
        " NOT NULL"@
    } else {
        Seq::empty()
    }) + (if column.stamped {
        " DEFAULT CURRENT_TIMESTAMP"@
    } else {
        Seq::empty()
    })
}

/// The clause of a foreign key.
pub open spec fn reference_sql(reference: ReferenceView) -> Seq<char> {
    "FOREIGN KEY ("@ + reference.column + ") REFERENCES "@ + reference.table + "("@ + KEY_COLUMN@
        + ")"@
}

/// What stands between the brackets of a table's statement: the columns, then
/// the foreign keys.
pub open spec fn items_of(table: TableView) -> Seq<Seq<char>> {
    table.columns.map_values(|column: ColumnView| column_sql(column))
        + table.references.map_values(|reference: ReferenceView| reference_sql(reference))
}

/// The items with a comma and a space between each two.
pub open spec fn listed(items: Seq<Seq<char>>) -> Seq<char>
    decreases items.len(),
{
    if items.len() == 0 {
        Seq::empty()
    } else if items.len() == 1 {
        items[0]
    } else {
        listed(items.drop_last()) + ", "@ + items.last()
    }
}

/// The statement that creates a table unless it exists, on a line of its own.
pub open spec fn table_sql(table: TableView) -> Seq<char> {
    "CREATE TABLE IF NOT EXISTS "@ + table.name + " ("@ + listed(items_of(table)) + ");\n"@
}

/// The statements of the tables, in their order.
pub open spec fn batch_sql(tables: Seq<TableView>) -> Seq<char>
    decreases tables.len(),
{
    if tables.len() == 0 {
        Seq::empty()
    } else {
        batch_sql(tables.drop_last()) + table_sql(tables.last())
    }
}

fn kind_name(kind: ColumnKind) -> (name: &'static str)
    ensures
        name@ == kind_sql(kind),
{
    match kind {
        ColumnKind::Text => "TEXT",
        ColumnKind::Integer => "INTEGER",
        ColumnKind::Timestamp => "TIMESTAMP",
    }
}

fn render_column(column: &Column) -> (sql: String)
    ensures
        sql@ == column_sql(column@),
{
    let mut sql = column.name.clone();
    sql.append(" ");
    sql.append(kind_name(column.kind));
    if column.primary_key {
        sql.append(" PRIMARY KEY");
    }
    if column.required {
        sql.append(" NOT NULL");
    }
    if column.stamped {
        sql.append(" DEFAULT CURRENT_TIMESTAMP");
    }
    assert(sql@ =~= column_sql(column@));
    sql
}

fn render_reference(reference: &Reference) -> (sql: String)
    ensures
        sql@ == reference_sql(reference@),
{
    String::from_str("FOREIGN KEY (").concat(reference.column.as_str()).concat(
        ") REFERENCES ",
    ).concat(reference.table.as_str()).concat("(").concat(KEY_COLUMN).concat(")")
}

/// Appends the item at `place` to a list that holds the items before it.
fn push_item(
    list: &mut String,
    first: bool,
    item: &str,
    Ghost(items): Ghost<Seq<Seq<char>>>,
    Ghost(place): Ghost<int>,
)
    requires
        0 <= place < items.len(),
        first == (place == 0),
        old(list)@ == listed(items.take(place)),
        item@ == items[place],
    ensures
        final(list)@ == listed(items.take(place + 1)),
{
    if !first {
        list.append(", ");
    }
    list.append(item);
    proof {
        let now = items.take(place + 1);
        assert(now.drop_last() =~= items.take(place));
        assert(now.last() == items[place]);
        assert(final(list)@ =~= listed(now));
    }
}

/// Writes the statement that creates `table` unless it exists.
pub fn render_table(table: &Table) -> (sql: String)
    ensures
        sql@ == table_sql(table@),
{
    let ghost items = items_of(table@);
    let mut list = String::new();
    let mut first = true;
    let mut count: usize = 0;
    assert(list@ =~= listed(items.take(0)));
    while count < table.columns.len()
        invariant
            count <= table.columns.len(),
            first == (count == 0),
            items == items_of(table@),
            list@ == listed(items.take(count as int)),
        decreases table.columns.len() - count,
    {
        let item = render_column(&table.columns[count]);
        push_item(&mut list, first, item.as_str(), Ghost(items), Ghost(count as int));
        first = false;
        count = count + 1;
    }
    let mut index: usize = 0;
    while index < table.references.len()
        invariant
            index <= table.references.len(),
            first == (table.columns.len() + index == 0),
            items == items_of(table@),
            list@ == listed(items.take(table.columns.len() + index)),
        decreases table.references.len() - index,
    {
        let item = render_reference(&table.references[index]);
        push_item(
            &mut list,
            first,
            item.as_str(),
            Ghost(items),
            Ghost(table.columns.len() + index),
        );
        first = false;
        index = index + 1;
    }
    assert(items.take(items.len() as int) =~= items);
    String::from_str("CREATE TABLE IF NOT EXISTS ").concat(table.name.as_str()).concat(" (").concat(
        list.as_str(),
    ).concat(");\n")
}

/// Writes the statements that create `tables`, in their order.
pub fn render_batch(tables: &Vec<Table>) -> (sql: String)
    ensures
        sql@ == batch_sql(tables_view(tables)),
{
    let ghost all = tables_view(tables);
    let mut sql = String::new();
    let mut index: usize = 0;
    assert(sql@ =~= batch_sql(all.take(0)));
    while index < tables.len()
        invariant
            index <= tables.len(),
            all == tables_view(tables),
            sql@ == batch_sql(all.take(index as int)),
        decreases tables.len() - index,
    {
        let statement = render_table(&tables[index]);
        sql.append(statement.as_str());
        proof {
            let now = all.take(index as int + 1);
            assert(now.drop_last() =~= all.take(index as int));
            assert(now.last() == all[index as int]);
        }
        index = index + 1;
    }
    assert(all.take(all.len() as int) =~= all);
    sql
}

/// The name of the table of players.
pub const PLAYERS: &'static str = "players";

/// The name of the table of games.
pub const GAMES: &'static str = "games";

/// The name of the table of participants.
pub const GAME_PARTICIPANTS: &'static str = "game_participants";

/// The name of the table of rounds.
pub const ROUNDS: &'static str = "rounds";

/// The name of the table of throws.
pub const THROWS: &'static str = "throws";

/// The name of the table of round states of 01.
pub const ZERO_ONE_ROUND_STATES: &'static str = "zero_one_round_states";

/// The name of the table of cricket marks.
pub const CRICKET_MARKS: &'static str = "cricket_marks";

/// The name of the table of cricket scores.
pub const CRICKET_SCORES: &'static str = "cricket_scores";


/// Who plays.
pub open spec fn players_table() -> TableView {
    TableView {
        name: PLAYERS@,
        columns: seq![
            key_column(),
            required_column("name"@, ColumnKind::Text),
            stamp_column("created_at"@),
        ],
        references: Seq::empty(),
    }
}

/// One game, from start to end.
pub open spec fn games_table() -> TableView {
    TableView {
        name: GAMES@,
        columns: seq![
            key_column(),
            required_column("game_type"@, ColumnKind::Text),
            required_column("status"@, ColumnKind::Text),
            stamp_column("started_at"@),
            optional_column("ended_at"@, ColumnKind::Timestamp),
        ],
        references: Seq::empty(),
    }
}

/// A player's seat in a game.
pub open spec fn game_participants_table() -> TableView {
    TableView {
        name: GAME_PARTICIPANTS@,
        columns: seq![
            key_column(),
            required_column("game_id"@, ColumnKind::Text),
            required_column("player_id"@, ColumnKind::Text),
            required_column("turn_order"@, ColumnKind::Integer),
        ],
        references: seq![
            reference_to("game_id"@, GAMES@),
            reference_to("player_id"@, PLAYERS@),
        ],
    }
}

/// One round of a game.
pub open spec fn rounds_table() -> TableView {
    TableView {
        name: ROUNDS@,
        columns: seq![
            key_column(),
            required_column("game_id"@, ColumnKind::Text),
            required_column("round_number"@, ColumnKind::Integer),
        ],
        references: seq![
            reference_to("game_id"@, GAMES@),
        ],
    }
}

/// One dart, with the videos that show it.
pub open spec fn throws_table() -> TableView {
    TableView {
        name: THROWS@,
        columns: seq![
            key_column(),
            required_column("round_id"@, ColumnKind::Text),
            required_column("participant_id"@, ColumnKind::Text),
            required_column("throw_number"@, ColumnKind::Integer),
            required_column("segment"@, ColumnKind::Text),
            optional_column("posture_video_path"@, ColumnKind::Text),
            optional_column("board_video_path"@, ColumnKind::Text),
        ],
        references: seq![
            reference_to("round_id"@, ROUNDS@),
            reference_to("participant_id"@, GAME_PARTICIPANTS@),
        ],
    }
}

/// What a participant has left after a round of 01.
pub open spec fn zero_one_round_states_table() -> TableView {
    TableView {
        name: ZERO_ONE_ROUND_STATES@,
        columns: seq![
            key_column(),
            required_column("round_id"@, ColumnKind::Text),
            required_column("participant_id"@, ColumnKind::Text),
            required_column("score_remaining"@, ColumnKind::Integer),
        ],
        references: seq![
            reference_to("round_id"@, ROUNDS@),
            reference_to("participant_id"@, GAME_PARTICIPANTS@),
        ],
    }
}

/// Marks that a participant made on a cricket target.
pub open spec fn cricket_marks_table() -> TableView {
    TableView {
        name: CRICKET_MARKS@,
        columns: seq![
            key_column(),
            required_column("round_id"@, ColumnKind::Text),
            required_column("participant_id"@, ColumnKind::Text),
            required_column("target_number"@, ColumnKind::Text),
            required_column("marks"@, ColumnKind::Integer),
            stamp_column("created_at"@),
        ],
        references: seq![
            reference_to("round_id"@, ROUNDS@),
            reference_to("participant_id"@, GAME_PARTICIPANTS@),
        ],
    }
}

/// Points that a participant scored in a round of cricket.
pub open spec fn cricket_scores_table() -> TableView {
    TableView {
        name: CRICKET_SCORES@,
        columns: seq![
            key_column(),
            required_column("round_id"@, ColumnKind::Text),
            required_column("participant_id"@, ColumnKind::Text),
            required_column("score"@, ColumnKind::Integer),
        ],
        references: seq![
            reference_to("round_id"@, ROUNDS@),
            reference_to("participant_id"@, GAME_PARTICIPANTS@),
        ],
    }
}

/// The gameplay schema. A table stands after every table that it refers to.
pub open spec fn schema() -> Seq<TableView> {
    seq![
        players_table(),
        games_table(),
        game_participants_table(),
        rounds_table(),
        throws_table(),
        zero_one_round_states_table(),
        cricket_marks_table(),
        cricket_scores_table(),
    ]
}

fn key() -> (column: Column)
    ensures
        column@ == key_column(),
{
    Column {
        name: String::from_str(KEY_COLUMN),
        kind: ColumnKind::Text,
        primary_key: true,
        required: false,
        stamped: false,
    }
}

fn required(name: &str, kind: ColumnKind) -> (column: Column)
    ensures
        column@ == required_column(name@, kind),
{
    Column { name: String::from_str(name), kind, primary_key: false, required: true, stamped: false }
}

fn optional(name: &str, kind: ColumnKind) -> (column: Column)
    ensures
        column@ == optional_column(name@, kind),
{
    Column { name: String::from_str(name), kind, primary_key: false, required: false, stamped: false }
}

fn stamp(name: &str) -> (column: Column)
    ensures
        column@ == stamp_column(name@),
{
    Column {
        name: String::from_str(name),
        kind: ColumnKind::Timestamp,
        primary_key: false,
        required: true,
        stamped: true,
    }
}

fn reference(column: &str, table: &str) -> (reference: Reference)
    ensures
        reference@ == reference_to(column@, table@),
{
    Reference { column: String::from_str(column), table: String::from_str(table) }
}

fn players() -> (table: Table)
    ensures
        table@ == players_table(),
{
    let mut columns: Vec<Column> = Vec::new();
    columns.push(key());
    columns.push(required("name", ColumnKind::Text));
    columns.push(stamp("created_at"));
    let references: Vec<Reference> = Vec::new();
    assert(columns_view(&columns) =~= players_table().columns);
    assert(references_view(&references) =~= players_table().references);
    Table { name: String::from_str(PLAYERS), columns, references }
}

fn games() -> (table: Table)
    ensures
        table@ == games_table(),
{
    let mut columns: Vec<Column> = Vec::new();
    columns.push(key());
    columns.push(required("game_type", ColumnKind::Text));
    columns.push(required("status", ColumnKind::Text));
    columns.push(stamp("started_at"));
    columns.push(optional("ended_at", ColumnKind::Timestamp));
    let references: Vec<Reference> = Vec::new();
    assert(columns_view(&columns) =~= games_table().columns);
    assert(references_view(&references) =~= games_table().references);
    Table { name: String::from_str(GAMES), columns, references }
}

fn game_participants() -> (table: Table)
    ensures
        table@ == game_participants_table(),
{
    let mut columns: Vec<Column> = Vec::new();
    columns.push(key());
    columns.push(required("game_id", ColumnKind::Text));
    columns.push(required("player_id", ColumnKind::Text));
    columns.push(required("turn_order", ColumnKind::Integer));
    let mut references: Vec<Reference> = Vec::new();
    references.push(reference("game_id", GAMES));
    references.push(reference("player_id", PLAYERS));
    assert(columns_view(&columns) =~= game_participants_table().columns);
    assert(references_view(&references) =~= game_participants_table().references);
    Table { name: String::from_str(GAME_PARTICIPANTS), columns, references }
}

fn rounds() -> (table: Table)
    ensures
        table@ == rounds_table(),
{
    let mut columns: Vec<Column> = Vec::new();
    columns.push(key());
    columns.push(required("game_id", ColumnKind::Text));
    columns.push(required("round_number", ColumnKind::Integer));
    let mut references: Vec<Reference> = Vec::new();
    references.push(reference("game_id", GAMES));
    assert(columns_view(&columns) =~= rounds_table().columns);
    assert(references_view(&references) =~= rounds_table().references);
    Table { name: String::from_str(ROUNDS), columns, references }
}

fn throws() -> (table: Table)
    ensures
        table@ == throws_table(),
{
    let mut columns: Vec<Column> = Vec::new();
    columns.push(key());
    columns.push(required("round_id", ColumnKind::Text));
    columns.push(required("participant_id", ColumnKind::Text));
    columns.push(required("throw_number", ColumnKind::Integer));
    columns.push(required("segment", ColumnKind::Text));
    columns.push(optional("posture_video_path", ColumnKind::Text));
    columns.push(optional("board_video_path", ColumnKind::Text));
    let mut references: Vec<Reference> = Vec::new();
    references.push(reference("round_id", ROUNDS));
    references.push(reference("participant_id", GAME_PARTICIPANTS));
    assert(columns_view(&columns) =~= throws_table().columns);
    assert(references_view(&references) =~= throws_table().references);
    Table { name: String::from_str(THROWS), columns, references }
}

fn zero_one_round_states() -> (table: Table)
    ensures
        table@ == zero_one_round_states_table(),
{
    let mut columns: Vec<Column> = Vec::new();
    columns.push(key());
    columns.push(required("round_id", ColumnKind::Text));
    columns.push(required("participant_id", ColumnKind::Text));
    columns.push(required("score_remaining", ColumnKind::Integer));
    let mut references: Vec<Reference> = Vec::new();
    references.push(reference("round_id", ROUNDS));
    references.push(reference("participant_id", GAME_PARTICIPANTS));
    assert(columns_view(&columns) =~= zero_one_round_states_table().columns);
    assert(references_view(&references) =~= zero_one_round_states_table().references);
    Table { name: String::from_str(ZERO_ONE_ROUND_STATES), columns, references }
}

fn cricket_marks() -> (table: Table)
    ensures
        table@ == cricket_marks_table(),
{
    let mut columns: Vec<Column> = Vec::new();
    columns.push(key());
    columns.push(required("round_id", ColumnKind::Text));
    columns.push(required("participant_id", ColumnKind::Text));
    columns.push(required("target_number", ColumnKind::Text));
    columns.push(required("marks", ColumnKind::Integer));
    columns.push(stamp("created_at"));
    let mut references: Vec<Reference> = Vec::new();
    references.push(reference("round_id", ROUNDS));
    references.push(reference("participant_id", GAME_PARTICIPANTS));
    assert(columns_view(&columns) =~= cricket_marks_table().columns);
    assert(references_view(&references) =~= cricket_marks_table().references);
    Table { name: String::from_str(CRICKET_MARKS), columns, references }
}

fn cricket_scores() -> (table: Table)
    ensures
        table@ == cricket_scores_table(),
{
    let mut columns: Vec<Column> = Vec::new();
    columns.push(key());
    columns.push(required("round_id", ColumnKind::Text));
    columns.push(required("participant_id", ColumnKind::Text));
    columns.push(required("score", ColumnKind::Integer));
    let mut references: Vec<Reference> = Vec::new();
    references.push(reference("round_id", ROUNDS));
    references.push(reference("participant_id", GAME_PARTICIPANTS));
    assert(columns_view(&columns) =~= cricket_scores_table().columns);
    assert(references_view(&references) =~= cricket_scores_table().references);
    Table { name: String::from_str(CRICKET_SCORES), columns, references }
}

/// The gameplay schema.
pub fn gameplay_schema() -> (tables: Vec<Table>)
    ensures
        tables_view(&tables) == schema(),
{
    let mut tables: Vec<Table> = Vec::new();
    tables.push(players());
    tables.push(games());
    tables.push(game_participants());
    tables.push(rounds());
    tables.push(throws());
    tables.push(zero_one_round_states());
    tables.push(cricket_marks());
    tables.push(cricket_scores());
    assert(tables_view(&tables) =~= schema());
    tables
}

/// The batch that creates every table of the gameplay schema that does not
/// exist yet. Running it again changes nothing.
pub fn schema_batch() -> (sql: String)
    ensures
        sql@ == batch_sql(schema()),
{
    render_batch(&gameplay_schema())
}

/// The table has a column of this name.
pub open spec fn has_column(table: TableView, name: Seq<char>) -> bool {
    exists|i: int| 0 <= i < table.columns.len() && (#[trigger] table.columns[i]).name == name
}

/// One of the tables before the one at `end` has this name.
pub open spec fn stands_before(tables: Seq<TableView>, end: int, name: Seq<char>) -> bool {
    exists|j: int| 0 <= j < end && (#[trigger] tables[j]).name == name
}

/// The tables can be created in their order: no name occurs twice, every
/// table begins with the textual primary key `id`, and every foreign key
/// starts from a column of its table and refers to a table that stands
/// before it.
pub open spec fn well_formed(tables: Seq<TableView>) -> bool {
    &&& forall|i: int, j: int|
        0 <= i < j < tables.len() ==> (#[trigger] tables[i]).name != (#[trigger] tables[j]).name
    &&& forall|i: int|
        0 <= i < tables.len() ==> (#[trigger] tables[i]).columns.len() > 0
            && tables[i].columns[0] == key_column()
    &&& forall|i: int, k: int|
        0 <= i < tables.len() && 0 <= k < tables[i].references.len() ==> {
            &&& has_column(tables[i], (#[trigger] tables[i].references[k]).column)
            &&& stands_before(tables, i, tables[i].references[k].table)
        }
}

proof fn lemma_table_names_differ()
    ensures
        forall|i: int, j: int|
            0 <= i < j < schema().len() ==> (#[trigger] schema()[i]).name != (
            #[trigger] schema()[j]).name,
{
    reveal_strlit("players");
    reveal_strlit("games");
    reveal_strlit("game_participants");
    reveal_strlit("rounds");
    reveal_strlit("throws");
    reveal_strlit("zero_one_round_states");
    reveal_strlit("cricket_marks");
    reveal_strlit("cricket_scores");
    assert(PLAYERS@.len() == 7 && GAMES@.len() == 5 && GAME_PARTICIPANTS@.len() == 17);
    assert(ROUNDS@.len() == 6 && THROWS@.len() == 6 && ZERO_ONE_ROUND_STATES@.len() == 21);
    assert(CRICKET_MARKS@.len() == 13 && CRICKET_SCORES@.len() == 14);
    assert(ROUNDS@[0] == 'r' && THROWS@[0] == 't');
}

/// The gameplay schema can be created in its order.
pub proof fn lemma_schema_is_well_formed()
    ensures
        well_formed(schema()),
        schema().len() == 8,
{
    lemma_table_names_differ();
}

} // verus!
