use crm_gateway::records::{articulo_create_valid, articulo_update_valid, ArticuloRequest};

fn articulo(id: i32) -> ArticuloRequest {
    ArticuloRequest {
        id,
        nombre: String::from("Tornillo"),
        descripcion: Some(String::from("M4")),
        precio: 3,
        stock: 50,
    }
}

#[test]
fn creation_requires_placeholder_ids() {
    assert!(articulo_create_valid(&articulo(0), 0));
    assert!(!articulo_create_valid(&articulo(1), 0));
    assert!(!articulo_create_valid(&articulo(0), 1));
}

#[test]
fn update_requires_matching_real_ids() {
    assert!(articulo_update_valid(&articulo(5), 5));
    assert!(!articulo_update_valid(&articulo(0), 0));
    assert!(!articulo_update_valid(&articulo(5), 6));
}
