use frunze_api::errors::Error;
use frunze_api::projects::project::Project;
use frunze_api::schematic::schematic_provider::SchematicProvider;
use std::io::Write;

fn provider() -> SchematicProvider {
    SchematicProvider::new(
        "http://0.0.0.0:8009/schematic/generated/".to_string(),
        "http://localhost:8010/".to_string(),
        "generated/schematic".to_string(),
    )
}

fn project(id: &str) -> Project {
    Project { id: id.to_string(), components: vec![] }
}

fn archive_with(name: &str, bytes: &[u8]) -> Vec<u8> {
    let mut writer = zip::ZipWriter::new(std::io::Cursor::new(Vec::new()));
    let options =
        zip::write::FileOptions::default().compression_method(zip::CompressionMethod::Deflated);
    writer.start_file(name, options).unwrap();
    writer.write_all(bytes).unwrap();
    writer.finish().unwrap().into_inner()
}

#[test]
fn schematic_url_names_the_sketch_of_the_project() {
    assert_eq!(
        provider().archive_url(&project("p1")),
        "http://localhost:8010/svg-tcp/http://0.0.0.0:8009/schematic/generated/p1.fzz"
    );
}

#[test]
fn schematic_is_the_breadboard_view_of_the_sketch_of_the_project() {
    let archive = archive_with("p1_breadboard.svg", b"<svg/>");
    assert_eq!(provider().get(project("p1"), Ok(archive)), Ok(b"<svg/>".to_vec()));
}

#[test]
fn schematic_of_another_project_is_not_found() {
    let archive = archive_with("p1_breadboard.svg", b"<svg/>");
    assert_eq!(provider().get(project("p2"), Ok(archive)), Err(Error::NotFound));
}

#[test]
fn schematic_hands_on_a_failed_exchange() {
    assert_eq!(provider().get(project("p1"), Err(Error::Transport)), Err(Error::Transport));
}

#[test]
fn schematic_of_a_body_that_is_no_archive_fails_to_decode() {
    assert_eq!(provider().get(project("p1"), Ok(b"not found".to_vec())), Err(Error::Decode));
}
