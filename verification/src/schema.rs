//! The `media` table's schema as a value, and the renderer that turns a
//! schema into the `CREATE TABLE IF NOT EXISTS` statement handed to the
//! database plugin. The rendered text is pinned, character for
//! character, by spec functions over the schema's model.

use vstd::prelude::*;

verus! {

/// The SQL storage classes the schema uses.
#[derive(Clone, Copy, PartialEq, Eq, Structural, Debug)]
pub enum ColumnType {
    Integer,
    Text,
    Real,
}

/// A column's check constraint: none, membership in a list of string
/// values, or an inclusive integer range.
pub enum CheckRule {
    NoCheck,
    OneOf(Vec<String>),
    Range(u64, u64),
}

/// The mathematical image of a check constraint.
pub ghost enum CheckModel {
    NoCheck,
    OneOf(Seq<Seq<char>>),
    Range(u64, u64),
}

impl View for CheckRule {
    type V = CheckModel;

    open spec fn view(&self) -> CheckModel {
        match self {
            CheckRule::NoCheck => CheckModel::NoCheck,
            CheckRule::OneOf(vs) => CheckModel::OneOf(vs@.map_values(|v: String| v@)),
            CheckRule::Range(lo, hi) => CheckModel::Range(*lo, *hi),
        }
    }
}

/// One column definition.
pub struct Column {
    pub name: String,
    pub ty: ColumnType,
    pub pk_autoincrement: bool,
    pub not_null: bool,
    pub check: CheckRule,
    pub default_now: bool,
}

/// The mathematical image of a column definition.
pub ghost struct ColumnModel {
    pub name: Seq<char>,
    pub ty: ColumnType,
    pub pk_autoincrement: bool,
    pub not_null: bool,
    pub check: CheckModel,
    pub default_now: bool,
}

impl View for Column {
    type V = ColumnModel;

    open spec fn view(&self) -> ColumnModel {
        ColumnModel {
            name: self.name@,
            ty: self.ty,
            pk_autoincrement: self.pk_autoincrement,
            not_null: self.not_null,
            check: self.check@,
            default_now: self.default_now,
        }
    }
}

/// A table definition: its name, its columns in order, and the column
/// names of the table-level UNIQUE constraint (empty when there is
/// none).
pub struct TableSchema {
    pub name: String,
    pub columns: Vec<Column>,
    pub unique_columns: Vec<String>,
}

/// The mathematical image of a table definition.
pub ghost struct SchemaModel {
    pub name: Seq<char>,
    pub columns: Seq<ColumnModel>,
    pub unique_columns: Seq<Seq<char>>,
}

impl View for TableSchema {
    type V = SchemaModel;

    open spec fn view(&self) -> SchemaModel {
        SchemaModel {
            name: self.name@,
            columns: self.columns@.map_values(|c: Column| c@),
            unique_columns: self.unique_columns@.map_values(|v: String| v@),
        }
    }
}

/// The keyword a storage class renders to.
pub open spec fn type_sql(t: ColumnType) -> Seq<char> {
    match t {
        ColumnType::Integer => "INTEGER"@,
        ColumnType::Text => "TEXT"@,
        ColumnType::Real => "REAL"@,
    }
}

/// The character a decimal digit renders to.
pub open spec fn digit_char(d: nat) -> char {
    if d == 0 {
        '0'
    } else if d == 1 {
        '1'
    } else if d == 2 {
        '2'
    } else if d == 3 {
        '3'
    } else if d == 4 {
        '4'
    } else if d == 5 {
        '5'
    } else if d == 6 {
        '6'
    } else if d == 7 {
        '7'
    } else if d == 8 {
        '8'
    } else {
        '9'
    }
}

/// The decimal rendering of a natural number, most significant digit
/// first.
pub open spec fn dec_str(n: nat) -> Seq<char>
    decreases n,
{
    if n < 10 {
        seq![digit_char(n)]
    } else {
        dec_str(n / 10) + seq![digit_char(n % 10)]
    }
}

/// Items joined by `sep`.
pub open spec fn sql_list(items: Seq<Seq<char>>, sep: Seq<char>) -> Seq<char>
    decreases items.len(),
{
    if items.len() == 0 {
        Seq::empty()
    } else if items.len() == 1 {
        items[0]
    } else {
        sql_list(items.drop_last(), sep) + sep + items.last()
    }
}

/// Each value wrapped in single quotes.
pub open spec fn quoted(vs: Seq<Seq<char>>) -> Seq<Seq<char>> {
    vs.map_values(|v: Seq<char>| "'"@ + v + "'"@)
}

/// What a check constraint renders to, leading space included; the
/// empty sequence when there is none.
pub open spec fn check_sql(name: Seq<char>, c: CheckModel) -> Seq<char> {
    match c {
        CheckModel::NoCheck => Seq::empty(),
        CheckModel::OneOf(vs) => " CHECK("@ + name + " IN ("@ + sql_list(quoted(vs), ", "@)
            + "))"@,
        CheckModel::Range(lo, hi) => " CHECK("@ + name + " >= "@ + dec_str(lo as nat) + " AND "@
            + name + " <= "@ + dec_str(hi as nat) + ")"@,
    }
}

/// What one column definition renders to.
pub open spec fn column_sql(c: ColumnModel) -> Seq<char> {
    c.name + " "@ + type_sql(c.ty) + (if c.pk_autoincrement {
        " PRIMARY KEY AUTOINCREMENT"@
    } else {
        Seq::<char>::empty()
    }) + (if c.not_null {
        " NOT NULL"@
    } else {
        Seq::<char>::empty()
    }) + check_sql(c.name, c.check) + (if c.default_now {
        " DEFAULT (datetime('now'))"@
    } else {
        Seq::<char>::empty()
    })
}

/// What a whole table definition renders to.
pub open spec fn schema_sql(s: SchemaModel) -> Seq<char> {
    "CREATE TABLE IF NOT EXISTS "@ + s.name + " ("@ + sql_list(
        s.columns.map_values(|c: ColumnModel| column_sql(c)),
        ", "@,
    ) + (if s.unique_columns.len() == 0 {
        Seq::<char>::empty()
    } else {
        ", UNIQUE("@ + sql_list(s.unique_columns, ", "@) + ")"@
    }) + ")"@
}

/// One step of joining: extending the joined prefix by one item.
pub proof fn lemma_sql_list_step(items: Seq<Seq<char>>, sep: Seq<char>, i: int)
    requires
        0 <= i < items.len(),
    ensures
        sql_list(items.take(i + 1), sep) == if i == 0 {
            items[0]
        } else {
            sql_list(items.take(i), sep) + sep + items[i]
        },
{
    assert(items.take(i + 1).drop_last() =~= items.take(i));
    assert(items.take(i + 1).last() == items[i]);
    if i == 0 {
        assert(items.take(1)[0] == items[0]);
    }
}

fn digit_str(d: u64) -> (r: &'static str)
    requires
        d < 10,
    ensures
        r@ == seq![digit_char(d as nat)],
{
    match d {
        0 => {
            proof {
                reveal_strlit("0");
            }
            assert("0"@ =~= seq![digit_char(0)]);
            "0"
        },
        1 => {
            proof {
                reveal_strlit("1");
            }
            assert("1"@ =~= seq![digit_char(1)]);
            "1"
        },
        2 => {
            proof {
                reveal_strlit("2");
            }
            assert("2"@ =~= seq![digit_char(2)]);
            "2"
        },
        3 => {
            proof {
                reveal_strlit("3");
            }
            assert("3"@ =~= seq![digit_char(3)]);
            "3"
        },
        4 => {
            proof {
                reveal_strlit("4");
            }
            assert("4"@ =~= seq![digit_char(4)]);
            "4"
        },
        5 => {
            proof {
                reveal_strlit("5");
            }
            assert("5"@ =~= seq![digit_char(5)]);
            "5"
        },
        6 => {
            proof {
                reveal_strlit("6");
            }
            assert("6"@ =~= seq![digit_char(6)]);
            "6"
        },
        7 => {
            proof {
                reveal_strlit("7");
            }
            assert("7"@ =~= seq![digit_char(7)]);
            "7"
        },
        8 => {
            proof {
                reveal_strlit("8");
            }
            assert("8"@ =~= seq![digit_char(8)]);
            "8"
        },
        _ => {
            proof {
                reveal_strlit("9");
            }
            assert("9"@ =~= seq![digit_char(9)]);
            "9"
        },
    }
}

/// The decimal rendering of `n`, matching `dec_str`.
pub fn dec_string(n: u64) -> (r: String)
    ensures
        r@ == dec_str(n as nat),
    decreases n,
{
    if n < 10 {
        String::from_str(digit_str(n))
    } else {
        let mut r = dec_string(n / 10);
        r.append(digit_str(n % 10));
        r
    }
}

fn render_check(out: &mut String, name: &String, c: &CheckRule)
    ensures
        final(out)@ == old(out)@ + check_sql(name@, c@),
{
    match c {
        CheckRule::NoCheck => {
            proof {
                assert(out@ =~= old(out)@ + check_sql(name@, c@));
            }
        },
        CheckRule::OneOf(vs) => {
            out.append(" CHECK(");
            out.append(name.as_str());
            out.append(" IN (");
            let ghost items = quoted(vs@.map_values(|v: String| v@));
            let ghost head = old(out)@ + " CHECK("@ + name@ + " IN ("@;
            proof {
                assert(out@ =~= head);
            }
            let mut i: usize = 0;
            while i < vs.len()
                invariant
                    i <= vs.len(),
                    items == quoted(vs@.map_values(|v: String| v@)),
                    items.len() == vs.len(),
                    out@ == head + sql_list(items.take(i as int), ", "@),
                decreases vs.len() - i,
            {
                if i > 0 {
                    out.append(", ");
                }
                out.append("'");
                out.append(vs[i].as_str());
                out.append("'");
                proof {
                    assert(items[i as int] == "'"@ + vs@[i as int]@ + "'"@);
                    lemma_sql_list_step(items, ", "@, i as int);
                    assert(out@ =~= head + sql_list(items.take(i as int + 1), ", "@));
                }
                i += 1;
            }
            out.append("))");
            proof {
                assert(items.take(vs@.len() as int) =~= items);
                assert(out@ =~= old(out)@ + check_sql(name@, c@));
            }
        },
        CheckRule::Range(lo, hi) => {
            out.append(" CHECK(");
            out.append(name.as_str());
            out.append(" >= ");
            let lo_text = dec_string(*lo);
            out.append(lo_text.as_str());
            out.append(" AND ");
            out.append(name.as_str());
            out.append(" <= ");
            let hi_text = dec_string(*hi);
            out.append(hi_text.as_str());
            out.append(")");
            proof {
                assert(out@ =~= old(out)@ + check_sql(name@, c@));
            }
        },
    }
}

fn render_column(out: &mut String, c: &Column)
    ensures
        final(out)@ == old(out)@ + column_sql(c@),
{
    out.append(c.name.as_str());
    out.append(" ");
    match c.ty {
        ColumnType::Integer => out.append("INTEGER"),
        ColumnType::Text => out.append("TEXT"),
        ColumnType::Real => out.append("REAL"),
    }
    let ghost p1 = c@.name + " "@ + type_sql(c@.ty);
    proof {
        assert(out@ =~= old(out)@ + p1);
    }
    if c.pk_autoincrement {
        out.append(" PRIMARY KEY AUTOINCREMENT");
    }
    let ghost p2 = p1 + (if c.pk_autoincrement {
        " PRIMARY KEY AUTOINCREMENT"@
    } else {
        Seq::<char>::empty()
    });
    proof {
        assert(out@ =~= old(out)@ + p2);
    }
    if c.not_null {
        out.append(" NOT NULL");
    }
    let ghost p3 = p2 + (if c.not_null {
        " NOT NULL"@
    } else {
        Seq::<char>::empty()
    });
    proof {
        assert(out@ =~= old(out)@ + p3);
    }
    render_check(out, &c.name, &c.check);
    let ghost p4 = p3 + check_sql(c@.name, c@.check);
    proof {
        assert(out@ =~= old(out)@ + p4);
    }
    if c.default_now {
        out.append(" DEFAULT (datetime('now'))");
    }
    let ghost p5 = p4 + (if c.default_now {
        " DEFAULT (datetime('now'))"@
    } else {
        Seq::<char>::empty()
    });
    proof {
        assert(out@ =~= old(out)@ + p5);
        assert(p5 == column_sql(c@));
    }
}

/// Render a table definition to its `CREATE TABLE IF NOT EXISTS`
/// statement.
pub fn render_schema(schema: &TableSchema) -> (r: String)
    ensures
        r@ == schema_sql(schema@),
{
    let mut out = String::new();
    out.append("CREATE TABLE IF NOT EXISTS ");
    out.append(schema.name.as_str());
    out.append(" (");
    let ghost cols = schema@.columns.map_values(|c: ColumnModel| column_sql(c));
    let ghost head = "CREATE TABLE IF NOT EXISTS "@ + schema@.name + " ("@;
    proof {
        assert(out@ =~= head);
    }
    let mut i: usize = 0;
    while i < schema.columns.len()
        invariant
            i <= schema.columns.len(),
            cols == schema@.columns.map_values(|c: ColumnModel| column_sql(c)),
            cols.len() == schema.columns.len(),
            out@ == head + sql_list(cols.take(i as int), ", "@),
        decreases schema.columns.len() - i,
    {
        if i > 0 {
            out.append(", ");
        }
        render_column(&mut out, &schema.columns[i]);
        proof {
            assert(cols[i as int] == column_sql(schema@.columns[i as int]));
            lemma_sql_list_step(cols, ", "@, i as int);
            assert(out@ =~= head + sql_list(cols.take(i as int + 1), ", "@));
        }
        i += 1;
    }
    proof {
        assert(cols.take(schema.columns@.len() as int) =~= cols);
    }
    if schema.unique_columns.len() > 0 {
        out.append(", UNIQUE(");
        let ghost names = schema@.unique_columns;
        let ghost mid = head + sql_list(cols, ", "@) + ", UNIQUE("@;
        proof {
            assert(out@ =~= mid);
        }
        let mut i: usize = 0;
        while i < schema.unique_columns.len()
            invariant
                i <= schema.unique_columns.len(),
                names == schema@.unique_columns,
                names.len() == schema.unique_columns.len(),
                out@ == mid + sql_list(names.take(i as int), ", "@),
            decreases schema.unique_columns.len() - i,
        {
            if i > 0 {
                out.append(", ");
            }
            out.append(schema.unique_columns[i].as_str());
            proof {
                assert(names[i as int] == schema.unique_columns@[i as int]@);
                lemma_sql_list_step(names, ", "@, i as int);
                assert(out@ =~= mid + sql_list(names.take(i as int + 1), ", "@));
            }
            i += 1;
        }
        out.append(")");
        proof {
            assert(names.take(schema.unique_columns@.len() as int) =~= names);
        }
    }
    out.append(")");
    proof {
        assert(out@ =~= schema_sql(schema@));
    }
    out
}

} // verus!
