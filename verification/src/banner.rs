//! Where the database lives, and the title shown when the program starts.

use crate::messages::{paint, painted};
use crate::text::{to_uppercase, uppercase};
use vstd::prelude::*;
use vstd::string::*;

verus! {

/// The colour of the title.
pub const WHITE: &'static str = "white";

/// What a package says of itself.
#[derive(Debug)]
pub struct Package {
    pub name: String,
    pub description: String,
    pub authors: String,
    pub version: String,
    pub license: String,
    pub homepage: String,
}

/// The mathematical value of a [`Package`].
pub struct PackageView {
    pub name: Seq<char>,
    pub description: Seq<char>,
    pub authors: Seq<char>,
    pub version: Seq<char>,
    pub license: Seq<char>,
    pub homepage: Seq<char>,
}

impl View for Package {
    type V = PackageView;

    open spec fn view(&self) -> PackageView {
        PackageView {
            name: self.name@,
            description: self.description@,
            authors: self.authors@,
            version: self.version@,
            license: self.license@,
            homepage: self.homepage@,
        }
    }
}

/// The database file of a package in a home directory.
pub open spec fn path_of(home: Seq<char>, name: Seq<char>) -> Seq<char> {
    home + "/"@ + name + ".db3"@
}

/// The title: the heading, then one line each for authors, version,
/// license, database and documentation, and a closing line.
pub open spec fn title_text(heading: Seq<char>, package: PackageView, sql_file: Seq<char>) -> Seq<
    char,
> {
    "\n"@ + heading + " - "@ + package.description + "\nAuthors: "@ + package.authors
        + "\nVersion: "@ + package.version + "\nLicense: "@ + package.license
        + "\nDatabase path: "@ + sql_file + "\nDocumentation: "@ + package.homepage
        + "\nCrafted with ❤️ using Rust language\n"@
}

/// The path of the database file: in the home directory, named after the
/// package, with the extension `db3`.
pub fn database_path(home: &str, name: &str) -> (path: String)
    ensures
        path@ == path_of(home@, name@),
{
    let mut path = String::from_str(home);
    path.append("/");
    path.append(name);
    path.append(".db3");
    path
}

/// The title under a heading that is already in the case to show.
pub fn format_title(heading: &str, package: &Package, sql_file: &str) -> (text: String)
    ensures
        text@ == title_text(heading@, package@, sql_file@),
{
    let mut text = String::from_str("\n");
    text.append(heading);
    text.append(" - ");
    text.append(package.description.as_str());
    text.append("\nAuthors: ");
    text.append(package.authors.as_str());
    text.append("\nVersion: ");
    text.append(package.version.as_str());
    text.append("\nLicense: ");
    text.append(package.license.as_str());
    text.append("\nDatabase path: ");
    text.append(sql_file);
    text.append("\nDocumentation: ");
    text.append(package.homepage.as_str());
    text.append("\nCrafted with ❤️ using Rust language\n");
    text
}

/// The title of the program: the package's name in upper case as heading,
/// in white where the terminal takes colours, plain where it does not.
pub fn title(package: &Package, sql_file: &str) -> (shown: String)
    ensures
        ({
            let text = title_text(uppercase(package@.name), package@, sql_file@);
            shown@ == text || shown@ == painted(text, "white"@)
        }),
{
    let heading = to_uppercase(package.name.as_str());
    let text = format_title(heading.as_str(), package, sql_file);
    paint(text.as_str(), WHITE)
}

} // verus!
