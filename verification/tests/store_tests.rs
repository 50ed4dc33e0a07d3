//! Tests of the persistence gateway: insert, list, get by id, delete.

use teachertapp::models::CreateSchool;
use teachertapp::store::SchoolStore;

#[test]
fn database_can_insert_school() {
    let mut db = SchoolStore::new();
    let new_school = CreateSchool { name: "Saint Schoolson".to_string() };
    let res = db.create_school(&new_school).expect("School created");
    assert_eq!(res.name, new_school.name);
    assert_eq!(res.id, 1);
}

#[test]
fn can_get_schools() {
    let mut db = SchoolStore::new();
    let new_school = CreateSchool { name: "Saint Schoolson".to_string() };
    db.create_school(&new_school).expect("School created");

    let new_school = CreateSchool { name: "SchoolHill School".to_string() };
    db.create_school(&new_school).expect("School created");

    let res = db.get_schools().expect("Retrieved schools");

    assert_eq!(res.len(), 2);
    assert_eq!(res.first().unwrap().name, "Saint Schoolson");
}

#[test]
fn can_get_school_by_id() {
    let mut db = SchoolStore::new();
    let new_school = CreateSchool { name: "Saint Schoolson".to_string() };
    db.create_school(&new_school).expect("School created");

    let new_school = CreateSchool { name: "SchoolHill School".to_string() };
    db.create_school(&new_school).expect("School created");

    let res = db.get_school(2).expect("Retrieved school");

    assert_eq!(res.id, 2);
    assert_eq!(res.name, "SchoolHill School");
}

#[test]
fn can_delete_schools() {
    let mut db = SchoolStore::new();
    let new_school = CreateSchool { name: "Saint Schoolson".to_string() };
    db.create_school(&new_school).expect("School created");
    db.create_school(&new_school).expect("School created");

    let res = db.get_schools().expect("Retrieved schools");

    assert_eq!(res.len(), 2);

    db.delete_school(1).unwrap();
    let res = db.get_schools().expect("Retrieved schools");

    assert_eq!(res.len(), 1);
}

#[test]
fn schools_can_insert_school() {
    let mut db = SchoolStore::new();
    let new_school = CreateSchool { name: "Saint Schoolson".to_string() };
    let res = db.create_school(&new_school).expect("School created");
    assert_eq!(res.name, new_school.name);
    assert_eq!(res.id, 1);
}

#[test]
fn schools_can_get_school() {
    let mut db = SchoolStore::new();
    let new_school = CreateSchool { name: "Saint Schoolson".to_string() };
    db.create_school(&new_school).expect("School created");

    let new_school = CreateSchool { name: "SchoolHill School".to_string() };
    db.create_school(&new_school).expect("School created");

    let res = db.get_school(2).expect("Retrieved school");

    assert_eq!(res.id, 2);
    assert_eq!(res.name, "SchoolHill School");
}
