use xokdinst::failure::Failure;
use xokdinst::names::{
    get_clusters, get_config_name, get_configs, select_config, ConfigChoice, ConfigFile,
    ConfigSource, DirEntry,
};
use xokdinst::platform::Platform;

fn s(text: &str) -> String {
    text.to_string()
}

#[test]
fn config_name_after_the_platform() {
    assert_eq!(get_config_name(&None, &Platform::Libvirt), "config-libvirt.yaml");
    assert_eq!(get_config_name(&None, &Platform::AWS), "config-aws.yaml");
    assert_eq!(get_config_name(&None, &Platform::GCP), "config-gcp.yaml");
    assert_eq!(get_config_name(&None, &Platform::AZURE), "config-azure.yaml");
}

#[test]
fn config_name_after_the_name() {
    assert_eq!(get_config_name(&Some(s("big")), &Platform::AWS), "config-big.yaml");
    assert_eq!(get_config_name(&Some(s("")), &Platform::AWS), "config-.yaml");
}

#[test]
fn platform_names() {
    let all = [Platform::Libvirt, Platform::AWS, Platform::GCP, Platform::AZURE];
    let shown: Vec<String> = all.iter().map(|p| p.to_string()).collect();
    assert_eq!(shown, vec!["Libvirt", "AWS", "GCP", "AZURE"]);
    for p in all {
        assert_eq!(p.tag(), p.to_string().to_lowercase());
    }
}

#[test]
fn configs_are_filtered_by_name_in_order() {
    let names = vec![
        Some(s("config-aws.yaml")),
        None,
        Some(s("mycluster")),
        Some(s("config-é.yaml")),
        Some(s("config-aws.yml")),
        Some(s("my-config-aws.yaml")),
        Some(s("config-.yaml")),
        Some(s("config-yaml")),
        Some(s("")),
        Some(s("config-")),
        Some(s(".yaml")),
    ];
    assert_eq!(get_configs(&names), vec!["config-aws.yaml", "config-é.yaml", "config-.yaml"]);
    assert!(get_configs(&Vec::new()).is_empty());
}

#[test]
fn every_config_name_is_a_config() {
    for p in [Platform::Libvirt, Platform::AWS, Platform::GCP, Platform::AZURE] {
        let name = get_config_name(&None, &p);
        assert_eq!(get_configs(&vec![Some(name.clone())]), vec![name]);
    }
    let name = get_config_name(&Some(s("x y/z")), &Platform::GCP);
    assert_eq!(get_configs(&vec![Some(name.clone())]), vec![name]);
}

#[test]
fn clusters_are_the_directories() {
    let entries = vec![
        DirEntry { name: Some(s("b")), is_dir: true },
        DirEntry { name: Some(s("config-aws.yaml")), is_dir: false },
        DirEntry { name: None, is_dir: true },
        DirEntry { name: Some(s("a")), is_dir: true },
    ];
    assert_eq!(get_clusters(&entries), vec!["b", "a"]);
}

#[test]
fn named_config_wins_over_the_platform() {
    let configs = vec![s("config-aws.yaml"), s("config-libvirt.yaml")];
    let chosen = select_config(&Some(s("big")), &Some(Platform::AWS), &configs);
    assert_eq!(chosen, Ok(ConfigSource::Use(ConfigChoice::Given(s("big")))));
    let chosen = select_config(&Some(s("big")), &None, &Vec::new());
    assert_eq!(chosen, Ok(ConfigSource::Use(ConfigChoice::Given(s("big")))));
}

#[test]
fn config_is_generated_when_there_is_none() {
    assert_eq!(select_config(&None, &None, &Vec::new()), Ok(ConfigSource::Generate));
    assert_eq!(
        select_config(&None, &Some(Platform::GCP), &Vec::new()),
        Ok(ConfigSource::Generate)
    );
}

#[test]
fn platform_names_its_default_config() {
    let configs = vec![s("config-aws.yaml"), s("config-libvirt.yaml")];
    match select_config(&None, &Some(Platform::Libvirt), &configs) {
        Ok(ConfigSource::Use(choice)) => {
            assert_eq!(choice, ConfigChoice::Default(Platform::Libvirt));
            assert_eq!(choice.text(), "config-libvirt.yaml");
        }
        other => panic!("{:?}", other),
    }
}

#[test]
fn only_config_is_used() {
    let configs = vec![s("config-aws.yaml")];
    assert_eq!(
        select_config(&None, &None, &configs),
        Ok(ConfigSource::Use(ConfigChoice::Only(s("config-aws.yaml"))))
    );
}

#[test]
fn several_configs_are_no_default() {
    let configs = vec![s("config-aws.yaml"), s("config-libvirt.yaml")];
    assert_eq!(select_config(&None, &None, &configs), Err(Failure::ManyConfigs));
}

#[test]
fn config_files_by_name() {
    let choice = ConfigChoice::Given(s("big"));
    assert_eq!(ConfigFile::Chosen(choice.copy()).text(), "big");
    assert_eq!(ConfigFile::Full(choice.copy()).text(), "config-big.yaml");
    assert_eq!(ConfigFile::Plain(s("big")).text(), "big");
    assert_eq!(ConfigFile::Named(Some(s("big")), Platform::AWS).text(), "config-big.yaml");
    assert_eq!(ConfigFile::Named(None, Platform::AWS).text(), "config-aws.yaml");
    let default = ConfigChoice::Default(Platform::AWS);
    assert_eq!(ConfigFile::Chosen(default.copy()).text(), "config-aws.yaml");
    assert_eq!(ConfigFile::Full(default).text(), "config-config-aws.yaml.yaml");
    let file = ConfigFile::Named(Some(s("a")), Platform::GCP);
    assert_eq!(file.copy(), file);
}
