use clap::{Arg, ArgAction, Command};

fn cli() -> Command {
    Command::new("minepack")
        .about("A CLI tool for creating Minecraft Modpacks")
        .subcommand_required(true)
        .subcommand(
            Command::new("init")
                .about("Initialize a new modpack project")
                .arg(Arg::new("name").long("name"))
                .arg(Arg::new("version").long("version"))
                .arg(Arg::new("author").long("author"))
                .arg(Arg::new("description").long("description"))
                .arg(Arg::new("loader").long("loader"))
                .arg(Arg::new("minecraft_version").long("minecraft-version"))
                .arg(Arg::new("loader_version").long("loader-version")),
        )
        .subcommand(
            Command::new("add")
                .about("Add a mod to the modpack")
                .arg(Arg::new("mod_query").value_name("MOD"))
                .arg(Arg::new("yes").long("yes").short('y').action(ArgAction::SetTrue)),
        )
        .subcommand(
            Command::new("search")
                .about("Search for mods on Curseforge")
                .arg(Arg::new("query").value_name("QUERY").required(true)),
        )
        .subcommand(
            Command::new("build")
                .about("Build the modpack")
                .arg(Arg::new("format").long("format")),
        )
        .subcommand(
            Command::new("import")
                .about("Import a CurseForge modpack")
                .arg(Arg::new("path").value_name("PATH").required(true))
                .arg(Arg::new("yes").long("yes").short('y').action(ArgAction::SetTrue)),
        )
}

#[test]
fn verify_cli() {
    cli().debug_assert();
    let m = cli().try_get_matches_from(["minepack", "add", "jei", "-y"]).unwrap();
    let (name, sub) = m.subcommand().unwrap();
    assert_eq!(name, "add");
    assert_eq!(sub.get_one::<String>("mod_query").map(|s| s.as_str()), Some("jei"));
    assert!(sub.get_flag("yes"));
    let q = minepack::add::is_mod_url(sub.get_one::<String>("mod_query").unwrap());
    assert!(!q);
}
