//! The two listings of a registry: a table to read, and a shell script to
//! edit and source.

use crate::env_provider::{env_var_name, env_var_name_spec};
use crate::table::{
    rendered_table, table_add_row, table_header, table_load_preset, table_new, table_render,
    table_rows, table_set_header, table_style,
};
use crate::variable::{VariableInfo, VariableModel};
use vstd::prelude::*;
use vstd::string::*;

verus! {

/// The script line for one variable. A variable with a default gets a
/// commented-out export of that default; one without gets an export to fill
/// in.
pub open spec fn bash_line(v: VariableModel) -> Seq<char> {
    match v.default_value {
        Some(d) => "# export "@ + env_var_name_spec(v.name) + "=\""@ + d + "\"  # optional"@,
        None => "export "@ + env_var_name_spec(v.name) + "=TO-DO  # required"@,
    }
}

/// The first line of the script.
pub open spec fn bash_header() -> Seq<char> {
    "# You may `source` this or reference it in your runtime-config.toml via the `dotenv_path` field"@
}

/// The script lines of the variables, each after a line feed.
pub open spec fn bash_body(variables: Seq<VariableModel>) -> Seq<char>
    decreases variables.len(),
{
    if variables.len() == 0 {
        Seq::empty()
    } else {
        bash_body(variables.drop_last()) + "\n"@ + bash_line(variables.last())
    }
}

/// The script: the header line, an empty line, then one line per variable,
/// joined by line feeds.
pub open spec fn bash_script(variables: Seq<VariableModel>) -> Seq<char> {
    bash_header() + "\n"@ + bash_body(variables)
}

/// The script line for one variable.
pub fn format_one_bash(variable: &VariableInfo) -> (r: String)
    ensures
        r@ == bash_line(variable.deep_view()),
{
    let name = env_var_name(variable.name.as_str());
    match &variable.default_value {
        Some(default_value) => {
            let mut r: String = "# export ".to_owned();
            r.append(name.as_str());
            r.append("=\"");
            r.append(default_value.as_str());
            r.append("\"  # optional");
            r
        },
        None => {
            let mut r: String = "export ".to_owned();
            r.append(name.as_str());
            r.append("=TO-DO  # required");
            r
        },
    }
}

/// The shell script that lists the variables.
pub fn format_bash(variables: &[VariableInfo]) -> (r: String)
    ensures
        r@ == bash_script(variables.deep_view()),
{
    let ghost models = variables.deep_view();
    let mut r: String =
        "# You may `source` this or reference it in your runtime-config.toml via the `dotenv_path` field".to_owned();
    r.append("\n");
    let mut i: usize = 0;
    assert(models.take(0) =~= Seq::<VariableModel>::empty());
    assert(r@ =~= bash_script(models.take(0)));
    while i < variables.len()
        invariant
            i <= variables@.len(),
            models == variables.deep_view(),
            r@ == bash_script(models.take(i as int)),
        decreases variables@.len() - i,
    {
        let line = format_one_bash(&variables[i]);
        proof {
            assert(models.take(i + 1).drop_last() =~= models.take(i as int));
            assert(models.take(i + 1).last() == variables@[i as int].deep_view());
        }
        r.append("\n");
        r.append(line.as_str());
        i += 1;
        assert(r@ =~= bash_script(models.take(i as int)));
    }
    assert(models.take(i as int) =~= models);
    r
}

/// The border characters of the table: outer borders and a header line, no
/// lines between rows or columns.
pub open spec fn table_borders() -> Seq<char> {
    "||--+==+     --++++"@
}

/// The header cells of the table.
pub open spec fn table_header_cells() -> Seq<Seq<char>> {
    seq!["Name"@, "Required?"@, "Default value"@, "Secret?"@]
}

/// The cells of the row for one variable: its name, whether it is required,
/// its default or nothing, and whether it is secret.
pub open spec fn table_row_cells(v: VariableModel) -> Seq<Seq<char>> {
    seq![
        v.name,
        if v.required {
            "Required"@
        } else {
            "Optional"@
        },
        match v.default_value {
            Some(d) => d,
            None => ""@,
        },
        if v.secret {
            "Secret"@
        } else {
            ""@
        },
    ]
}

/// The rows of the table: one per variable, in the variables' order.
pub open spec fn table_rows_cells(variables: Seq<VariableModel>) -> Seq<Seq<Seq<char>>> {
    Seq::new(variables.len(), |i: int| table_row_cells(variables[i]))
}

/// The header cells of the table.
pub fn header_cells() -> (r: Vec<String>)
    ensures
        r.deep_view() == table_header_cells(),
{
    let mut r: Vec<String> = Vec::new();
    r.push("Name".to_owned());
    r.push("Required?".to_owned());
    r.push("Default value".to_owned());
    r.push("Secret?".to_owned());
    assert(r.deep_view() =~= table_header_cells());
    r
}

/// The cells of the row for one variable.
pub fn row_cells(variable: &VariableInfo) -> (r: Vec<String>)
    ensures
        r.deep_view() == table_row_cells(variable.deep_view()),
{
    let required: &str = if variable.required {
        "Required"
    } else {
        "Optional"
    };
    let default_value: &str = match &variable.default_value {
        Some(d) => d.as_str(),
        None => "",
    };
    let secret: &str = if variable.secret {
        "Secret"
    } else {
        ""
    };
    let mut r: Vec<String> = Vec::new();
    r.push(variable.name.clone());
    r.push(required.to_owned());
    r.push(default_value.to_owned());
    r.push(secret.to_owned());
    assert(r.deep_view() =~= table_row_cells(variable.deep_view()));
    r
}

/// The table that lists the variables: a header row, then one row per
/// variable, drawn with outer borders only.
pub fn format_table(variables: &[VariableInfo]) -> (r: String)
    ensures
        r@ == rendered_table(
            table_borders(),
            Some(table_header_cells()),
            table_rows_cells(variables.deep_view()),
        ),
{
    let ghost models = variables.deep_view();
    let mut table = table_new();
    let header = header_cells();
    table_set_header(&mut table, &header);
    proof {
        reveal_strlit("||--+==+     --++++");
    }
    table_load_preset(&mut table, "||--+==+     --++++");
    assert(table_rows(table) =~= table_rows_cells(models.take(0)));
    let mut i: usize = 0;
    while i < variables.len()
        invariant
            i <= variables@.len(),
            models == variables.deep_view(),
            table_style(table) == table_borders(),
            table_header(table) == Some(table_header_cells()),
            table_rows(table) == table_rows_cells(models.take(i as int)),
        decreases variables@.len() - i,
    {
        let cells = row_cells(&variables[i]);
        table_add_row(&mut table, &cells);
        i += 1;
        assert(table_rows(table) =~= table_rows_cells(models.take(i as int)));
    }
    assert(models.take(i as int) =~= models);
    table_render(&table)
}

/// How a registry is listed.
#[derive(Debug, Clone, Copy, PartialEq, Eq, Structural)]
pub enum OutputFormat {
    Table,
    Bash,
}

/// The command that lists the variables of an application.
#[derive(Debug, Clone, PartialEq, Eq)]
pub struct VariablesCommand {
    /// Where the application is: a manifest file, a directory that holds one,
    /// or a registry reference; the default manifest when absent.
    pub from: Option<String>,
    /// Whether to accept a registry's certificate without verifying it.
    pub insecure: bool,
    /// How to list the variables.
    pub output: OutputFormat,
}

impl VariablesCommand {
    /// The listing of the variables in the command's output format.
    pub fn format_variables(&self, variables: &[VariableInfo]) -> (r: String)
        ensures
            self.output == OutputFormat::Table ==> r@ == rendered_table(
                table_borders(),
                Some(table_header_cells()),
                table_rows_cells(variables.deep_view()),
            ),
            self.output == OutputFormat::Bash ==> r@ == bash_script(variables.deep_view()),
    {
        match self.output {
            OutputFormat::Table => format_table(variables),
            OutputFormat::Bash => format_bash(variables),
        }
    }
}

} // verus!
