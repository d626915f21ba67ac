use vstd::prelude::*;

verus! {

/// The schema viewer takes exactly two arguments after the program name: the
/// component library file and the schema file. Returns them, or `None` when
/// the number of arguments is wrong.
pub fn library_and_schema_paths(args: &Vec<String>) -> (paths: Option<(String, String)>)
    ensures
        match paths {
            Some((library, schema)) => {
                &&& args@.len() == 3
                &&& library@ == args@[1]@
                &&& schema@ == args@[2]@
            },
            None => args@.len() != 3,
        },
{
    if args.len() != 3 {
        None
    } else {
        Some((args[1].clone(), args[2].clone()))
    }
}

/// The component viewer takes exactly one argument after the program name:
/// the component library file. Returns it, or `None` when the number of
/// arguments is wrong.
pub fn library_path(args: &Vec<String>) -> (path: Option<String>)
    ensures
        match path {
            Some(library) => args@.len() == 2 && library@ == args@[1]@,
            None => args@.len() != 2,
        },
{
    if args.len() != 2 {
        None
    } else {
        Some(args[1].clone())
    }
}

} // verus!
