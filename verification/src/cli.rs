//! The account-creation commands' argument handling.

use vstd::prelude::*;

use crate::models::OperatorRole;

verus! {

/// The role the arguments after the username ask for, starting from
/// `role`: `--role admin` or `--role viewer`, the last one winning. Anything
/// else is refused with the message the command prints.
pub open spec fn role_from(args: Seq<Seq<char>>, role: OperatorRole) -> Result<OperatorRole, Seq<char>>
    decreases args.len(),
{
    if args.len() == 0 {
        Ok(role)
    } else if args[0] == "--role"@ {
        if args.len() < 2 {
            Err("--role needs a value"@)
        } else if args[1] == "admin"@ {
            role_from(args.subrange(2, args.len() as int), OperatorRole::Admin)
        } else if args[1] == "viewer"@ {
            role_from(args.subrange(2, args.len() as int), OperatorRole::Viewer)
        } else {
            Err("unknown role '"@ + args[1] + "', expected admin or viewer"@)
        }
    } else {
        Err("unexpected argument '"@ + args[0] + "'"@)
    }
}

/// The role `create-operator` gives the new account. It defaults to admin,
/// since this command is how the first operator gets created and anyone who
/// can run it already has server access.
pub fn parse_role(args: &[String]) -> (role: Result<OperatorRole, String>)
    ensures
        match (role, role_from(args@.map_values(|arg: String| arg@), OperatorRole::Admin)) {
            (Ok(role), Ok(wanted)) => role == wanted,
            (Err(message), Err(wanted)) => message@ == wanted,
            _ => false,
        },
{
    let ghost words = args@.map_values(|arg: String| arg@);
    let role_flag = String::from_str("--role");
    let admin = String::from_str("admin");
    let viewer = String::from_str("viewer");
    let mut role = OperatorRole::Admin;
    let mut i: usize = 0;
    assert(words.subrange(0, words.len() as int) =~= words);
    while i < args.len()
        invariant
            i <= args@.len(),
            words == args@.map_values(|arg: String| arg@),
            role_flag@ == "--role"@,
            admin@ == "admin"@,
            viewer@ == "viewer"@,
            role_from(words, OperatorRole::Admin) == role_from(words.subrange(i as int, words.len() as int), role),
        decreases args@.len() - i,
    {
        let ghost rest = words.subrange(i as int, words.len() as int);
        assert(rest[0] == args@[i as int]@);
        if args[i] == role_flag {
            if i + 1 >= args.len() {
                return Err(String::from_str("--role needs a value"));
            }
            assert(rest[1] == args@[i + 1]@);
            if args[i + 1] == admin {
                role = OperatorRole::Admin;
            } else if args[i + 1] == viewer {
                role = OperatorRole::Viewer;
            } else {
                let mut message = String::from_str("unknown role '");
                message.append(args[i + 1].as_str());
                message.append("', expected admin or viewer");
                return Err(message);
            }
            assert(rest.subrange(2, rest.len() as int) =~= words.subrange(i + 2, words.len() as int));
            i = i + 2;
        } else {
            let mut message = String::from_str("unexpected argument '");
            message.append(args[i].as_str());
            message.append("'");
            return Err(message);
        }
    }
    assert(words.subrange(i as int, words.len() as int) =~= Seq::<Seq<char>>::empty());
    Ok(role)
}

} // verus!
